//! A discovery session: one request sent by multicast, then answers collected
//! until a deadline.
//!
//! The session itself neither reads a clock nor touches a socket. Its owner
//! tells it what happened, as an [`Event`], and the session says what to do
//! next, as an [`Action`]. The owner starts by reading the clock.

use crate::answer::{answer_location, lossy_text, receive_answer};
use vstd::hash_set::StringHashSet;
use vstd::prelude::*;

verus! {

/// The request that opens a session, sent once to [`MULTICAST_ADDRESS`].
pub const DISCOVERY_TEXT: &'static str =
    "M-SEARCH * HTTP/1.1\nHOST: 239.255.255.250:1900\nMAN: ssdp:discover\nMX: 10\nST: ssdp:all\n\n";

/// Where the request of a session is sent.
pub const MULTICAST_ADDRESS: &'static str = "239.255.255.250:1900";

/// What the owner of a session reports to it.
pub enum Event {
    /// The clock was read: so many nanoseconds have passed since the session began.
    Clock(u128),
    /// A datagram arrived.
    Packet(Vec<u8>),
    /// Nothing arrived within the time allowed.
    TimedOut,
    /// Receiving failed for another reason.
    Failed,
}

/// What a session asks its owner to do.
#[derive(Debug, PartialEq, Eq)]
pub enum Action {
    /// The session is over: yield nothing more.
    Finish,
    /// Wait for one datagram, for at most so many nanoseconds.
    Receive(u128),
    /// Read the clock and report it.
    ReadClock,
    /// Fetch the description at this location and yield the outcome, whatever it is.
    Resolve(String),
    /// Yield the failure that was reported.
    Fail,
}

/// Mathematical content of an [`Event`].
pub enum EventView {
    Clock(nat),
    Packet(Seq<u8>),
    TimedOut,
    Failed,
}

/// Mathematical content of an [`Action`].
pub enum ActionView {
    Finish,
    Receive(nat),
    ReadClock,
    Resolve(Seq<char>),
    Fail,
}

impl View for Event {
    type V = EventView;

    open spec fn view(&self) -> EventView {
        match *self {
            Event::Clock(elapsed) => EventView::Clock(elapsed as nat),
            Event::Packet(bytes) => EventView::Packet(bytes@),
            Event::TimedOut => EventView::TimedOut,
            Event::Failed => EventView::Failed,
        }
    }
}

impl View for Action {
    type V = ActionView;

    open spec fn view(&self) -> ActionView {
        match *self {
            Action::Finish => ActionView::Finish,
            Action::Receive(wait) => ActionView::Receive(wait as nat),
            Action::ReadClock => ActionView::ReadClock,
            Action::Resolve(location) => ActionView::Resolve(location@),
            Action::Fail => ActionView::Fail,
        }
    }
}

/// Mathematical content of a session.
pub struct Session {
    /// Nanoseconds from the start of the session to its deadline.
    pub timeout: nat,
    /// The locations that were handed out for resolving.
    pub seen: Set<Seq<char>>,
    /// Whether the deadline was seen to have passed.
    pub exhausted: bool,
}

/// The session as it begins.
pub open spec fn fresh(timeout: nat) -> Session {
    Session { timeout, seen: Set::empty(), exhausted: false }
}

/// The text of the location that a datagram announces, if it is a well-formed answer.
pub open spec fn announced(packet: Seq<u8>) -> Option<Seq<char>> {
    match answer_location(packet) {
        Ok(location) => Some(lossy_text(location)),
        Err(_) => None,
    }
}

/// How a session reacts to one event: the session afterwards, and what it asks for.
pub open spec fn step(session: Session, event: EventView) -> (Session, ActionView) {
    if session.exhausted {
        (session, ActionView::Finish)
    } else {
        match event {
            EventView::Clock(elapsed) => {
                if elapsed >= session.timeout {
                    (Session { exhausted: true, ..session }, ActionView::Finish)
                } else {
                    (session, ActionView::Receive((session.timeout - elapsed) as nat))
                }
            },
            EventView::TimedOut => (session, ActionView::ReadClock),
            EventView::Failed => (session, ActionView::Fail),
            EventView::Packet(packet) => {
                match announced(packet) {
                    None => (session, ActionView::ReadClock),
                    Some(location) => {
                        if session.seen.contains(location) {
                            (session, ActionView::ReadClock)
                        } else {
                            (
                                Session { seen: session.seen.insert(location), ..session },
                                ActionView::Resolve(location),
                            )
                        }
                    },
                }
            },
        }
    }
}

/// The session after a series of events, and what it asked for at each of them.
pub open spec fn run(session: Session, events: Seq<EventView>) -> (Session, Seq<ActionView>)
    decreases events.len(),
{
    if events.len() == 0 {
        (session, Seq::empty())
    } else {
        let (before, actions) = run(session, events.drop_last());
        let (after, action) = step(before, events.last());
        (after, actions.push(action))
    }
}

/// The state of one discovery session.
pub struct BridgeFinder {
    timeout: u128,
    seen_urls: StringHashSet,
    exhausted: bool,
}

impl View for BridgeFinder {
    type V = Session;

    closed spec fn view(&self) -> Session {
        Session { timeout: self.timeout as nat, seen: self.seen_urls@, exhausted: self.exhausted }
    }
}

impl BridgeFinder {
    /// A session that lasts `timeout` nanoseconds from now and has seen no location yet.
    pub fn new(timeout: u128) -> (finder: Self)
        ensures
            finder@ == fresh(timeout as nat),
    {
        BridgeFinder { timeout, seen_urls: StringHashSet::new(), exhausted: false }
    }

    /// Nanoseconds from the start of the session to its deadline.
    pub fn timeout(&self) -> (timeout: u128)
        ensures
            timeout == self@.timeout,
    {
        self.timeout
    }

    /// Whether the session is over.
    pub fn is_exhausted(&self) -> (exhausted: bool)
        ensures
            exhausted == self@.exhausted,
    {
        self.exhausted
    }

    /// Whether this location was handed out for resolving before.
    pub fn has_seen(&self, location: &str) -> (seen: bool)
        ensures
            seen == self@.seen.contains(location@),
    {
        self.seen_urls.contains(location)
    }

    /// Takes in what happened and says what to do next.
    pub fn next(&mut self, event: Event) -> (action: Action)
        ensures
            (final(self)@, action@) == step(old(self)@, event@),
    {
        if self.exhausted {
            return Action::Finish;
        }
        match event {
            Event::Clock(elapsed) => {
                if elapsed >= self.timeout {
                    self.exhausted = true;
                    Action::Finish
                } else {
                    Action::Receive(self.timeout - elapsed)
                }
            },
            Event::TimedOut => Action::ReadClock,
            Event::Failed => Action::Fail,
            Event::Packet(packet) => {
                match receive_answer(packet.as_slice()) {
                    Err(_) => Action::ReadClock,
                    Ok(location) => {
                        if self.seen_urls.contains(location.as_str()) {
                            Action::ReadClock
                        } else {
                            self.seen_urls.insert(location.clone());
                            Action::Resolve(location)
                        }
                    },
                }
            },
        }
    }
}

/// A series of events is answered action by action, and what a shorter series
/// was answered with is not changed by what comes after it.
pub proof fn lemma_run_prefix(session: Session, events: Seq<EventView>, count: int)
    requires
        0 <= count <= events.len(),
    ensures
        run(session, events).1.len() == events.len(),
        run(session, events.take(count)).1 == run(session, events).1.take(count),
    decreases events.len(),
{
    if events.len() == 0 {
    } else if count == events.len() {
        lemma_run_prefix(session, events.drop_last(), count - 1);
        assert(events.take(count) =~= events);
    } else {
        lemma_run_prefix(session, events.drop_last(), count);
        assert(events.drop_last().take(count) =~= events.take(count));
    }
}

/// Within one session no location is handed out for resolving twice: a
/// location that is handed out was not seen before, is seen from then on, and
/// nothing that was seen is forgotten.
pub proof fn lemma_no_location_resolved_twice(session: Session, events: Seq<EventView>)
    ensures
        session.seen.subset_of(run(session, events).0.seen),
        forall|i: int, location: Seq<char>|
            0 <= i < events.len() && run(session, events).1[i] == ActionView::Resolve(location)
                ==> !session.seen.contains(location) && run(session, events).0.seen.contains(
                location,
            ),
        forall|i: int, j: int, location: Seq<char>|
            0 <= i < j < events.len() && run(session, events).1[i] == ActionView::Resolve(
                location,
            ) ==> run(session, events).1[j] != ActionView::Resolve(location),
    decreases events.len(),
{
    lemma_run_prefix(session, events, 0);
    if events.len() > 0 {
        let earlier = events.drop_last();
        lemma_no_location_resolved_twice(session, earlier);
        lemma_run_prefix(session, earlier, 0);
    }
}

/// Two answers that announce the same location, whoever sent them and
/// whatever happens between them, lead to one attempt to resolve it: at the
/// first answer, if the location is new to the session.
pub proof fn lemma_same_location_resolved_once(
    session: Session,
    first: Seq<u8>,
    between: Seq<EventView>,
    second: Seq<u8>,
)
    requires
        !session.exhausted,
        announced(first) is Some,
        announced(first) == announced(second),
        !session.seen.contains(announced(first)->0),
    ensures
        ({
            let events = seq![EventView::Packet(first)] + between + seq![
                EventView::Packet(second),
            ];
            let actions = run(session, events).1;
            &&& actions.len() == between.len() + 2
            &&& actions[0] == ActionView::Resolve(announced(first)->0)
            &&& forall|i: int|
                0 < i < actions.len() ==> actions[i] != ActionView::Resolve(announced(first)->0)
        }),
{
    let events = seq![EventView::Packet(first)] + between + seq![EventView::Packet(second)];
    lemma_run_prefix(session, events, 1);
    let opening = events.take(1);
    assert(run(session, opening.drop_last()) == (session, Seq::<ActionView>::empty()));
    assert(run(session, events).1.take(1)[0] == run(session, events).1[0]);
    lemma_no_location_resolved_twice(session, events);
}

/// A session that is over stays over: it answers every event with
/// [`ActionView::Finish`] and does not change.
pub proof fn lemma_exhausted_is_terminal(session: Session, events: Seq<EventView>)
    requires
        session.exhausted,
    ensures
        run(session, events).0 == session,
        run(session, events).1.len() == events.len(),
        forall|i: int| 0 <= i < events.len() ==> run(session, events).1[i] == ActionView::Finish,
    decreases events.len(),
{
    if events.len() > 0 {
        lemma_exhausted_is_terminal(session, events.drop_last());
    }
}

/// While nothing arrives, a session yields nothing: it only asks to wait, to
/// read the clock, or to stop. It never asks to wait beyond its deadline, and
/// from the first reading of the clock at or past the deadline it is over.
pub proof fn lemma_silent_session_yields_nothing(session: Session, events: Seq<EventView>)
    requires
        forall|i: int|
            0 <= i < events.len() ==> events[i] is Clock || events[i] == EventView::TimedOut,
    ensures
        run(session, events).0.seen == session.seen,
        run(session, events).0.timeout == session.timeout,
        run(session, events).1.len() == events.len(),
        forall|i: int|
            0 <= i < events.len() ==> !(run(session, events).1[i] is Resolve) && run(
                session,
                events,
            ).1[i] != ActionView::Fail,
        forall|i: int|
            0 <= i < events.len() && run(session, events).1[i] is Receive ==> events[i] is Clock
                && events[i]->Clock_0 + run(session, events).1[i]->Receive_0 == session.timeout
                && run(session, events).1[i]->Receive_0 > 0,
        forall|i: int|
            0 <= i < events.len() && events[i] is Clock && events[i]->Clock_0 >= session.timeout
                ==> run(session, events).0.exhausted,
        forall|i: int, j: int|
            0 <= i <= j < events.len() && events[i] is Clock && events[i]->Clock_0
                >= session.timeout ==> run(session, events).1[j] == ActionView::Finish,
    decreases events.len(),
{
    if events.len() > 0 {
        let earlier = events.drop_last();
        lemma_silent_session_yields_nothing(session, earlier);
        let (before, actions) = run(session, earlier);
        assert(session.exhausted ==> before.exhausted) by {
            if session.exhausted {
                lemma_exhausted_is_terminal(session, earlier);
            }
        }
        assert forall|i: int|
            0 <= i < events.len() && run(session, events).1[i] is Receive implies events[i] is Clock
                && events[i]->Clock_0 + run(session, events).1[i]->Receive_0 == session.timeout
                && run(session, events).1[i]->Receive_0 > 0 by {
            if i < earlier.len() {
                assert(earlier[i] == events[i]);
            }
        }
        assert forall|i: int, j: int|
            0 <= i <= j < events.len() && events[i] is Clock && events[i]->Clock_0
                >= session.timeout implies run(session, events).1[j] == ActionView::Finish by {
            if i < earlier.len() {
                assert(earlier[i] == events[i]);
            }
        }
    }
}

/// A datagram that is no well-formed answer changes nothing and does not end
/// the session: the session asks for the clock and goes on.
pub proof fn lemma_malformed_packet_is_skipped(session: Session, packet: Seq<u8>)
    requires
        !session.exhausted,
        answer_location(packet) is Err,
    ensures
        step(session, EventView::Packet(packet)) == (session, ActionView::ReadClock),
{
}

/// After a malformed datagram a well-formed answer is still handed out: with
/// time left on the clock, the session asks to receive again, and the answer
/// that then arrives with a new location is resolved.
pub proof fn lemma_answer_after_malformed_packet(
    session: Session,
    malformed: Seq<u8>,
    elapsed: nat,
    answer: Seq<u8>,
)
    requires
        !session.exhausted,
        answer_location(malformed) is Err,
        elapsed < session.timeout,
        announced(answer) is Some,
        !session.seen.contains(announced(answer)->0),
    ensures
        run(
            session,
            seq![
                EventView::Packet(malformed),
                EventView::Clock(elapsed),
                EventView::Packet(answer),
            ],
        ).1 == seq![
            ActionView::ReadClock,
            ActionView::Receive((session.timeout - elapsed) as nat),
            ActionView::Resolve(announced(answer)->0),
        ],
{
    let events = seq![
        EventView::Packet(malformed),
        EventView::Clock(elapsed),
        EventView::Packet(answer),
    ];
    let two = events.drop_last();
    let one = two.drop_last();
    assert(run(session, one.drop_last()) == (session, Seq::<ActionView>::empty()));
    assert(run(session, one).0 == session);
    assert(run(session, two).0 == session);
}

/// Begins a discovery session that lasts `timeout` nanoseconds.
pub fn find_bridges(timeout: u128) -> (finder: BridgeFinder)
    ensures
        finder@ == fresh(timeout as nat),
{
    BridgeFinder::new(timeout)
}

} // verus!
