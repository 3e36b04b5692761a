//! Publication: one write per entry, in order, each judged by the reply it
//! gets. A rejected write is reported and the run goes on; a write that could
//! not be delivered at all ends the run.

use crate::codec::json_text;
use crate::codec::parse_failure;
use crate::codec::parsed_json;
use crate::codec::ParseError;
use crate::flatten::entry_views;
use crate::flatten::flatten;
use crate::flatten::parse_pillar;
use crate::flatten::KvString;
use crate::flatten::KvView;
use crate::target::put_request;
use crate::target::Consul;
use crate::target::ConsulView;
use crate::target::PutRequest;
use crate::target::PutRequestView;
use crate::text::join3;
use vstd::prelude::*;
use vstd::string::StringExecFns;

verus! {

/// What came back for one write, as specifications see it.
pub enum ReplyView {
    Status { code: u16, line: Seq<char> },
    Failed { cause: Seq<char> },
}

/// What came back for one write: a response with its status code and the
/// status as the transport prints it, or the reason why no response came.
#[derive(Debug, PartialEq, Eq)]
pub enum Reply {
    Status { code: u16, line: String },
    Failed { cause: String },
}

impl View for Reply {
    type V = ReplyView;

    open spec fn view(&self) -> ReplyView {
        match self {
            Reply::Status { code, line } => ReplyView::Status { code: *code, line: line@ },
            Reply::Failed { cause } => ReplyView::Failed { cause: cause@ },
        }
    }
}

/// How one write ended, as specifications see it.
pub enum OutcomeView {
    Delivered,
    Rejected { key: Seq<char>, status: Seq<char> },
    TransportFailed { cause: Seq<char> },
}

/// How one write ended: stored, refused by the store with a status, or never
/// delivered.
#[derive(Debug, PartialEq, Eq)]
pub enum Outcome {
    Delivered,
    Rejected { key: String, status: String },
    TransportFailed { cause: String },
}

impl View for Outcome {
    type V = OutcomeView;

    open spec fn view(&self) -> OutcomeView {
        match self {
            Outcome::Delivered => OutcomeView::Delivered,
            Outcome::Rejected { key, status } => OutcomeView::Rejected {
                key: key@,
                status: status@,
            },
            Outcome::TransportFailed { cause } => OutcomeView::TransportFailed { cause: cause@ },
        }
    }
}

/// Whether a status code says that the write was stored: the codes from 200
/// to 299.
pub open spec fn is_success(code: u16) -> bool {
    200 <= code < 300
}

/// How the write of `key` ended, given what came back for it.
pub open spec fn judge(key: Seq<char>, reply: ReplyView) -> OutcomeView {
    match reply {
        ReplyView::Status { code, line } => if is_success(code) {
            OutcomeView::Delivered
        } else {
            OutcomeView::Rejected { key, status: line }
        },
        ReplyView::Failed { cause } => OutcomeView::TransportFailed { cause },
    }
}

/// The diagnostic for a rejected write.
pub open spec fn rejection_message(key: Seq<char>, status: Seq<char>) -> Seq<char> {
    "stroing ["@ + key + "] failed, status_code "@ + status
}

/// The diagnostic that an outcome calls for: one for a rejected write, none
/// for any other.
pub open spec fn diagnostic_of(outcome: OutcomeView) -> Option<Seq<char>> {
    match outcome {
        OutcomeView::Rejected { key, status } => Some(rejection_message(key, status)),
        _ => None,
    }
}

/// Whether a status code says that the write was stored.
pub fn status_is_success(code: u16) -> (stored: bool)
    ensures
        stored == is_success(code),
{
    200 <= code && code < 300
}

/// Judges the reply to the write of the full key `key`.
pub fn judge_reply(key: &str, reply: Reply) -> (outcome: Outcome)
    ensures
        outcome@ == judge(key@, reply@),
{
    match reply {
        Reply::Status { code, line } => {
            if status_is_success(code) {
                Outcome::Delivered
            } else {
                Outcome::Rejected { key: key.to_owned(), status: line }
            }
        },
        Reply::Failed { cause } => Outcome::TransportFailed { cause },
    }
}

impl Outcome {
    /// The diagnostic to emit for this outcome, if it calls for one.
    pub fn diagnostic(&self) -> (message: Option<String>)
        ensures
            message is Some <==> self@ is Rejected,
            match message {
                Some(text) => Some(text@) == diagnostic_of(self@),
                None => diagnostic_of(self@) is None,
            },
    {
        match self {
            Outcome::Rejected { key, status } => {
                let mut text = join3("stroing [", key.as_str(), "] failed, status_code ");
                text.append(status.as_str());
                Some(text)
            },
            _ => None,
        }
    }
}

/// Where a publication stands.
#[derive(Debug, PartialEq, Eq, Clone, Copy)]
pub enum Phase {
    /// No write has been handed out yet.
    NotStarted,
    /// A write has been handed out and its reply is awaited.
    Publishing,
    /// Every entry's write has been answered.
    Done,
    /// A write could not be delivered; the run has ended.
    Aborted,
}

/// A publication as specifications see it: the target, the entries, how many
/// of them have been answered, and the phase.
pub struct PublicationView {
    pub target: ConsulView,
    pub entries: Seq<KvView>,
    pub answered: nat,
    pub phase: Phase,
}

/// What one step hands back, as specifications see it.
pub struct StepView {
    pub outcome: Option<OutcomeView>,
    pub request: Option<PutRequestView>,
}

/// What one step hands back: how the write that was just answered ended, if a
/// reply was taken, and the write to perform next, if there is one.
#[derive(Debug, PartialEq, Eq)]
pub struct Step {
    pub outcome: Option<Outcome>,
    pub request: Option<PutRequest>,
}

impl View for Step {
    type V = StepView;

    open spec fn view(&self) -> StepView {
        StepView {
            outcome: match self.outcome {
                Some(outcome) => Some(outcome@),
                None => None,
            },
            request: match self.request {
                Some(request) => Some(request@),
                None => None,
            },
        }
    }
}

/// The write for one entry: its body is the compact JSON text of the value.
pub open spec fn entry_request(target: ConsulView, entry: KvView) -> PutRequestView {
    put_request(target, entry.key, json_text(entry.value))
}

impl PublicationView {
    /// A publication that has not started.
    pub open spec fn fresh(target: ConsulView, entries: Seq<KvView>) -> PublicationView {
        PublicationView { target, entries, answered: 0, phase: Phase::NotStarted }
    }

    /// What holds of every publication: no more entries are answered than
    /// there are, none before the start, all when done, and while a reply is
    /// awaited or the run was aborted, the entry in question is still there.
    pub open spec fn wf(self) -> bool {
        match self.phase {
            Phase::NotStarted => self.answered == 0,
            Phase::Publishing => self.answered < self.entries.len(),
            Phase::Done => self.answered == self.entries.len(),
            Phase::Aborted => self.answered < self.entries.len(),
        }
    }

    /// The write for the entry at `index`.
    pub open spec fn request_at(self, index: int) -> PutRequestView {
        entry_request(self.target, self.entries[index])
    }

    /// The publication once the entry at `self.answered` is the one whose
    /// write is due: publishing if there is such an entry, else done.
    pub open spec fn proceed(self) -> (PublicationView, Option<PutRequestView>) {
        if self.answered < self.entries.len() {
            (
                PublicationView { phase: Phase::Publishing, ..self },
                Some(self.request_at(self.answered as int)),
            )
        } else {
            (PublicationView { phase: Phase::Done, ..self }, None)
        }
    }

    /// One step: from a publication and what came back, if anything, to the
    /// publication afterwards and what to do next.
    ///
    /// Before the start, the first write is handed out, whatever came in.
    /// While a reply is awaited: without one, the pending write is handed out
    /// again; a response of any status counts the entry as answered and moves
    /// on to the next; a failure of the transport aborts the run. Once done or
    /// aborted, nothing changes and nothing is handed out.
    pub open spec fn step(self, reply: Option<ReplyView>) -> (PublicationView, StepView) {
        match self.phase {
            Phase::NotStarted => {
                let (next, request) = self.proceed();
                (next, StepView { outcome: None, request })
            },
            Phase::Publishing => match reply {
                None => (
                    self,
                    StepView { outcome: None, request: Some(self.request_at(self.answered as int)) },
                ),
                Some(reply) => {
                    let outcome = judge(self.request_at(self.answered as int).key, reply);
                    if reply is Failed {
                        (
                            PublicationView { phase: Phase::Aborted, ..self },
                            StepView { outcome: Some(outcome), request: None },
                        )
                    } else {
                        let (next, request) = PublicationView {
                            answered: self.answered + 1,
                            ..self
                        }.proceed();
                        (next, StepView { outcome: Some(outcome), request })
                    }
                },
            },
            Phase::Done | Phase::Aborted => (self, StepView { outcome: None, request: None }),
        }
    }
}

/// A publication in progress: the entries of one document on their way to one
/// store.
pub struct Publication {
    target: Consul,
    entries: Vec<KvString>,
    progress: Progress,
}

/// How far a publication has come; the two change together.
#[derive(Clone, Copy)]
struct Progress {
    answered: usize,
    phase: Phase,
}

impl View for Publication {
    type V = PublicationView;

    closed spec fn view(&self) -> PublicationView {
        PublicationView {
            target: self.target@,
            entries: entry_views(self.entries@),
            answered: self.progress.answered as nat,
            phase: self.progress.phase,
        }
    }
}

impl Publication {
    #[verifier::type_invariant]
    spec fn well_formed(self) -> bool {
        self@.wf()
    }

    /// A publication of `entries` to `target` that has not started.
    pub fn new(target: Consul, entries: Vec<KvString>) -> (publication: Publication)
        ensures
            publication@ == PublicationView::fresh(target@, entry_views(entries@)),
    {
        Publication {
            target,
            entries,
            progress: Progress { answered: 0, phase: Phase::NotStarted },
        }
    }

    /// Where the publication stands.
    pub fn phase(&self) -> (phase: Phase)
        ensures
            phase == self@.phase,
            self@.wf(),
    {
        proof {
            use_type_invariant(self);
        }
        self.progress.phase
    }

    /// How many entries have been answered.
    pub fn answered(&self) -> (count: usize)
        ensures
            count == self@.answered,
    {
        self.progress.answered
    }

    /// How many entries there are.
    pub fn len(&self) -> (count: usize)
        ensures
            count == self@.entries.len(),
    {
        self.entries.len()
    }

    /// The write for the entry at `index`.
    fn request_at(&self, index: usize) -> (request: PutRequest)
        requires
            index < self@.entries.len(),
        ensures
            request@ == self@.request_at(index as int),
    {
        let entry = &self.entries[index];
        self.target.store_kv(entry.key.as_str(), &entry.value)
    }

    /// One step of the publication: takes what came back for the pending
    /// write, if anything, and hands back how that write ended and the write
    /// to perform next.
    pub fn step(&mut self, reply: Option<Reply>) -> (step: Step)
        ensures
            old(self)@.wf(),
            final(self)@.wf(),
            (final(self)@, step@) == old(self)@.step(
                match reply {
                    Some(reply) => Some(reply@),
                    None => None,
                },
            ),
    {
        proof {
            use_type_invariant(&*self);
        }
        let answered = self.progress.answered;
        match self.progress.phase {
            Phase::NotStarted => {
                if answered < self.entries.len() {
                    let request = self.request_at(answered);
                    self.progress = Progress { answered, phase: Phase::Publishing };
                    Step { outcome: None, request: Some(request) }
                } else {
                    self.progress = Progress { answered, phase: Phase::Done };
                    Step { outcome: None, request: None }
                }
            },
            Phase::Publishing => {
                assert(answered < self.entries.len());
                match reply {
                    None => Step { outcome: None, request: Some(self.request_at(answered)) },
                    Some(Reply::Failed { cause }) => {
                        self.progress = Progress { answered, phase: Phase::Aborted };
                        Step { outcome: Some(Outcome::TransportFailed { cause }), request: None }
                    },
                    Some(reply) => {
                        let key = join3(
                            self.target.kv_prefix.as_str(),
                            "/",
                            self.entries[answered].key.as_str(),
                        );
                        let outcome = judge_reply(key.as_str(), reply);
                        let next: usize = answered + 1;
                        if next < self.entries.len() {
                            let request = self.request_at(next);
                            self.progress = Progress { answered: next, phase: Phase::Publishing };
                            Step { outcome: Some(outcome), request: Some(request) }
                        } else {
                            self.progress = Progress { answered: next, phase: Phase::Done };
                            Step { outcome: Some(outcome), request: None }
                        }
                    },
                }
            },
            Phase::Done => Step { outcome: None, request: None },
            Phase::Aborted => Step { outcome: None, request: None },
        }
    }
}

/// Prepares the publication of a document to a store: reads the document
/// from `contents`, flattens it from the root and lines its entries up for
/// `consul`. No write is handed out yet.
///
/// The result is `Ok` exactly where `contents` is read as a document; of a
/// text that is not, nothing is published, and the result holds the message
/// with which the text is rejected.
pub fn do_work(consul: Consul, contents: &str) -> (r: Result<Publication, ParseError>)
    ensures
        match parsed_json(contents@) {
            Some(document) => r matches Ok(publication) && publication@ == PublicationView::fresh(
                consul@,
                flatten(""@, document),
            ),
            None => r matches Err(error) && error.message@ == parse_failure(contents@),
        },
{
    match parse_pillar(contents) {
        Ok(entries) => Ok(Publication::new(consul, entries)),
        Err(error) => Err(error),
    }
}

impl PublicationView {
    /// The publication after its start and then one step for each of
    /// `replies`, in order.
    pub open spec fn after(self, replies: Seq<ReplyView>) -> PublicationView
        decreases replies.len(),
    {
        if replies.len() == 0 {
            self.step(None).0
        } else {
            self.after(replies.drop_last()).step(Some(replies.last())).0
        }
    }

    /// The writes handed out by the start and by one step for each of
    /// `replies`, in the order in which they were handed out.
    pub open spec fn writes(self, replies: Seq<ReplyView>) -> Seq<PutRequestView>
        decreases replies.len(),
    {
        let (before, handed) = if replies.len() == 0 {
            (Seq::<PutRequestView>::empty(), self.step(None).1.request)
        } else {
            (
                self.writes(replies.drop_last()),
                self.after(replies.drop_last()).step(Some(replies.last())).1.request,
            )
        };
        match handed {
            Some(request) => before.push(request),
            None => before,
        }
    }
}

/// A step keeps a publication well formed, whatever comes in.
pub proof fn lemma_step_keeps_wf(publication: PublicationView, reply: Option<ReplyView>)
    requires
        publication.wf(),
    ensures
        publication.step(reply).0.wf(),
        publication.step(reply).0.target == publication.target,
        publication.step(reply).0.entries == publication.entries,
{
}

/// A rejected write stops nothing: while a reply is awaited, a response of any
/// status counts the entry as answered and hands out the write of the next
/// entry, if there is one. The status decides the outcome that is reported and
/// nothing else.
pub proof fn lemma_rejection_is_isolated(
    publication: PublicationView,
    code: u16,
    line: Seq<char>,
    other_code: u16,
    other_line: Seq<char>,
)
    requires
        publication.wf(),
        publication.phase is Publishing,
    ensures
        ({
            let (next, step) = publication.step(Some(ReplyView::Status { code, line }));
            let (other_next, other_step) = publication.step(
                Some(ReplyView::Status { code: other_code, line: other_line }),
            );
            &&& next.answered == publication.answered + 1
            &&& !(next.phase is Aborted)
            &&& next.phase is Done <==> publication.answered + 1 == publication.entries.len()
            &&& step.request == if publication.answered + 1 < publication.entries.len() {
                Some(publication.request_at(publication.answered as int + 1))
            } else {
                None
            }
            &&& step.outcome is Some
            &&& !(step.outcome->0 is TransportFailed)
            &&& step.outcome->0 is Delivered <==> is_success(code)
            &&& other_next == next
            &&& other_step.request == step.request
        }),
{
}

/// A write that could not be delivered ends the run: nothing is handed out
/// by that step or by any step after it.
pub proof fn lemma_transport_failure_aborts(
    publication: PublicationView,
    cause: Seq<char>,
    later: Option<ReplyView>,
)
    requires
        publication.wf(),
        publication.phase is Publishing,
    ensures
        ({
            let (next, step) = publication.step(Some(ReplyView::Failed { cause }));
            &&& next.phase is Aborted
            &&& next.answered == publication.answered
            &&& step.request is None
            &&& step.outcome == Some(OutcomeView::TransportFailed { cause })
            &&& next.step(later) == (next, StepView { outcome: None, request: None })
        }),
{
}

/// Every entry is written, in order, whatever the store answers: from a fresh
/// publication, as long as each write gets a response, of whatever status, the
/// writes handed out are those of the entries one after the other, and once
/// the last response is in, the publication is done.
pub proof fn lemma_every_entry_is_written(
    target: ConsulView,
    entries: Seq<KvView>,
    replies: Seq<ReplyView>,
)
    requires
        replies.len() <= entries.len(),
        forall|i: int| 0 <= i < replies.len() ==> replies[i] is Status,
    ensures
        ({
            let fresh = PublicationView::fresh(target, entries);
            let reached = fresh.after(replies);
            let writes = fresh.writes(replies);
            &&& reached.wf()
            &&& reached.target == target
            &&& reached.entries == entries
            &&& reached.answered == replies.len()
            &&& reached.phase is Done <==> replies.len() == entries.len()
            &&& reached.phase is Publishing <==> replies.len() < entries.len()
            &&& writes.len() == if replies.len() < entries.len() {
                replies.len() + 1
            } else {
                replies.len()
            }
            &&& forall|i: int| 0 <= i < writes.len() ==> writes[i] == entry_request(target, entries[i])
        }),
    decreases replies.len(),
{
    let fresh = PublicationView::fresh(target, entries);
    if replies.len() > 0 {
        lemma_every_entry_is_written(target, entries, replies.drop_last());
    }
}

} // verus!
