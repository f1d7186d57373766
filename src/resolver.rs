use vstd::prelude::*;
use vstd::utf8::{decode_utf8, valid_utf8};

use crate::answer::{build_prompt, clean_answer, cleaned, is_placeholder, is_placeholder_answer, prompt_for};

verus! {

/// Why a question could not be answered.
#[derive(Clone, Copy, Debug, PartialEq, Eq, Structural)]
pub enum ResolveError {
    /// The request body is not text.
    InvalidInput,
    /// The answer store could not be read or written, or held something that is not text.
    StoreUnavailable,
    /// The model could not produce an answer.
    GenerationFailed,
}

/// What the resolver asks its caller to do next.
pub enum Action {
    /// Look up the stored answer under this key.
    Lookup(String),
    /// Ask the model to complete this prompt.
    Generate(String),
    /// Store the answer (second) under the key (first).
    Save(String, String),
    /// The resolution is over, with this outcome.
    Finish(Result<String, ResolveError>),
}

/// What the caller reports back after doing what was asked.
pub enum Event {
    /// The store holds these bytes under the key.
    Found(Vec<u8>),
    /// The store holds nothing under the key.
    Missing,
    /// The lookup failed.
    LookupFailed,
    /// The model returned this text.
    Generated(String),
    /// The model call failed.
    GenerationFailed,
    /// The answer was stored.
    Saved,
    /// Storing the answer failed.
    SaveFailed,
}

/// Where a resolution stands.
pub enum Phase {
    AwaitingLookup,
    AwaitingGeneration,
    /// Waiting for this answer to be stored.
    AwaitingSave(String),
    Finished,
}

/// The resolution of one question: looks it up, regenerates missing or placeholder answers,
/// and stores each fresh answer under the question exactly as it was asked.
pub struct Resolver {
    question: String,
    phase: Phase,
}

/// An action, with its texts as character sequences.
pub enum ActionModel {
    Lookup(Seq<char>),
    Generate(Seq<char>),
    Save(Seq<char>, Seq<char>),
    Finish(Result<Seq<char>, ResolveError>),
}

/// An event, with its texts and bytes as sequences.
pub enum EventModel {
    Found(Seq<u8>),
    Missing,
    LookupFailed,
    Generated(Seq<char>),
    GenerationFailed,
    Saved,
    SaveFailed,
}

/// A phase, with the pending answer as a character sequence.
pub enum PhaseModel {
    AwaitingLookup,
    AwaitingGeneration,
    AwaitingSave(Seq<char>),
    Finished,
}

/// A resolver: its question and where it stands.
pub struct ResolverModel {
    pub question: Seq<char>,
    pub phase: PhaseModel,
}

impl View for Action {
    type V = ActionModel;

    open spec fn view(&self) -> ActionModel {
        match self {
            Action::Lookup(k) => ActionModel::Lookup(k@),
            Action::Generate(p) => ActionModel::Generate(p@),
            Action::Save(k, v) => ActionModel::Save(k@, v@),
            Action::Finish(Ok(a)) => ActionModel::Finish(Ok(a@)),
            Action::Finish(Err(e)) => ActionModel::Finish(Err(*e)),
        }
    }
}

impl View for Event {
    type V = EventModel;

    open spec fn view(&self) -> EventModel {
        match self {
            Event::Found(b) => EventModel::Found(b@),
            Event::Missing => EventModel::Missing,
            Event::LookupFailed => EventModel::LookupFailed,
            Event::Generated(t) => EventModel::Generated(t@),
            Event::GenerationFailed => EventModel::GenerationFailed,
            Event::Saved => EventModel::Saved,
            Event::SaveFailed => EventModel::SaveFailed,
        }
    }
}

impl View for Phase {
    type V = PhaseModel;

    open spec fn view(&self) -> PhaseModel {
        match self {
            Phase::AwaitingLookup => PhaseModel::AwaitingLookup,
            Phase::AwaitingGeneration => PhaseModel::AwaitingGeneration,
            Phase::AwaitingSave(a) => PhaseModel::AwaitingSave(a@),
            Phase::Finished => PhaseModel::Finished,
        }
    }
}

impl View for Resolver {
    type V = ResolverModel;

    closed spec fn view(&self) -> ResolverModel {
        ResolverModel { question: self.question@, phase: self.phase@ }
    }
}

/// A resolution of `q` that has just begun, and its first request: the lookup under `q`.
pub open spec fn started(q: Seq<char>) -> (ResolverModel, ActionModel) {
    (ResolverModel { question: q, phase: PhaseModel::AwaitingLookup }, ActionModel::Lookup(q))
}

/// The resolution of `q` ends with `outcome`.
pub open spec fn finished(q: Seq<char>, outcome: Result<Seq<char>, ResolveError>) -> (
    ResolverModel,
    ActionModel,
) {
    (ResolverModel { question: q, phase: PhaseModel::Finished }, ActionModel::Finish(outcome))
}

/// The resolution of `q` asks the model for a fresh answer.
pub open spec fn regenerating(q: Seq<char>) -> (ResolverModel, ActionModel) {
    (
        ResolverModel { question: q, phase: PhaseModel::AwaitingGeneration },
        ActionModel::Generate(prompt_for(q)),
    )
}

/// The events that a resolver in `phase` expects.
pub open spec fn accepts(phase: PhaseModel, e: EventModel) -> bool {
    match phase {
        PhaseModel::AwaitingLookup => e is Found || e is Missing || e is LookupFailed,
        PhaseModel::AwaitingGeneration => e is Generated || e is GenerationFailed,
        PhaseModel::AwaitingSave(_) => e is Saved || e is SaveFailed,
        PhaseModel::Finished => false,
    }
}

/// The answer that a resolver in `phase` is storing.
pub open spec fn pending_answer(phase: PhaseModel) -> Seq<char> {
    match phase {
        PhaseModel::AwaitingSave(a) => a,
        _ => Seq::empty(),
    }
}

/// The next state and request of resolver `s` once event `e`, which it expects, has come.
pub open spec fn next(s: ResolverModel, e: EventModel) -> (ResolverModel, ActionModel) {
    let q = s.question;
    match e {
        EventModel::Found(bytes) => if !valid_utf8(bytes) {
            finished(q, Err(ResolveError::StoreUnavailable))
        } else if is_placeholder(decode_utf8(bytes)) {
            regenerating(q)
        } else {
            finished(q, Ok(decode_utf8(bytes)))
        },
        EventModel::Missing => regenerating(q),
        EventModel::LookupFailed => finished(q, Err(ResolveError::StoreUnavailable)),
        EventModel::Generated(raw) => (
            ResolverModel { question: q, phase: PhaseModel::AwaitingSave(cleaned(raw)) },
            ActionModel::Save(q, cleaned(raw)),
        ),
        EventModel::GenerationFailed => finished(q, Err(ResolveError::GenerationFailed)),
        EventModel::Saved => finished(q, Ok(pending_answer(s.phase))),
        EventModel::SaveFailed => finished(q, Err(ResolveError::StoreUnavailable)),
    }
}

/// The requests that a resolution of `q` makes, in order, when the store answers the lookup
/// with `lookup`, the model answers with `generation`, and the store answers the write with
/// `save`; events that are never asked for are never used.
pub open spec fn run(
    q: Seq<char>,
    lookup: EventModel,
    generation: EventModel,
    save: EventModel,
) -> Seq<ActionModel> {
    let (s0, a0) = started(q);
    let (s1, a1) = next(s0, lookup);
    if a1 is Finish {
        seq![a0, a1]
    } else {
        let (s2, a2) = next(s1, generation);
        if a2 is Finish {
            seq![a0, a1, a2]
        } else {
            let (s3, a3) = next(s2, save);
            seq![a0, a1, a2, a3]
        }
    }
}

/// The bytes `b` hold an answer that is final.
pub open spec fn holds_committed(b: Seq<u8>) -> bool {
    valid_utf8(b) && !is_placeholder(decode_utf8(b))
}

/// The bytes `b` hold the placeholder answer.
pub open spec fn holds_placeholder(b: Seq<u8>) -> bool {
    valid_utf8(b) && is_placeholder(decode_utf8(b))
}

/// A final stored answer is returned as it is, after the lookup alone: the model is not asked
/// and nothing is written, so asking again finds the same entry and gets the same answer.
pub proof fn committed_answer_is_served(
    q: Seq<char>,
    stored: Seq<u8>,
    generation: EventModel,
    save: EventModel,
)
    requires
        holds_committed(stored),
    ensures
        run(q, EventModel::Found(stored), generation, save) == seq![
            ActionModel::Lookup(q),
            ActionModel::Finish(Ok(decode_utf8(stored))),
        ],
{
}

/// A stored placeholder makes the model be asked once; its cleaned output overwrites the entry
/// under the same key and is returned.
pub proof fn placeholder_is_regenerated(q: Seq<char>, stored: Seq<u8>, raw: Seq<char>)
    requires
        holds_placeholder(stored),
    ensures
        run(q, EventModel::Found(stored), EventModel::Generated(raw), EventModel::Saved) == seq![
            ActionModel::Lookup(q),
            ActionModel::Generate(prompt_for(q)),
            ActionModel::Save(q, cleaned(raw)),
            ActionModel::Finish(Ok(cleaned(raw))),
        ],
{
}

/// With no entry, the model is asked once; its cleaned output is stored under the question as
/// it was asked and returned.
pub proof fn missing_answer_is_generated_and_kept(q: Seq<char>, raw: Seq<char>)
    ensures
        run(q, EventModel::Missing, EventModel::Generated(raw), EventModel::Saved) == seq![
            ActionModel::Lookup(q),
            ActionModel::Generate(prompt_for(q)),
            ActionModel::Save(q, cleaned(raw)),
            ActionModel::Finish(Ok(cleaned(raw))),
        ],
{
}

/// A failed lookup fails the resolution with `StoreUnavailable`, before the model is asked.
pub proof fn lookup_failure_is_reported(q: Seq<char>, generation: EventModel, save: EventModel)
    ensures
        run(q, EventModel::LookupFailed, generation, save) == seq![
            ActionModel::Lookup(q),
            ActionModel::Finish(Err(ResolveError::StoreUnavailable)),
        ],
{
}

/// A failed model call fails the resolution with `GenerationFailed`, and nothing is written.
pub proof fn generation_failure_is_reported(q: Seq<char>, lookup: EventModel, save: EventModel)
    requires
        lookup is Missing || (lookup matches EventModel::Found(b) && holds_placeholder(b)),
    ensures
        run(q, lookup, EventModel::GenerationFailed, save) == seq![
            ActionModel::Lookup(q),
            ActionModel::Generate(prompt_for(q)),
            ActionModel::Finish(Err(ResolveError::GenerationFailed)),
        ],
{
}

/// A failed write fails the resolution with `StoreUnavailable`, after the model was asked once.
pub proof fn save_failure_is_reported(q: Seq<char>, lookup: EventModel, raw: Seq<char>)
    requires
        lookup is Missing || (lookup matches EventModel::Found(b) && holds_placeholder(b)),
    ensures
        run(q, lookup, EventModel::Generated(raw), EventModel::SaveFailed) == seq![
            ActionModel::Lookup(q),
            ActionModel::Generate(prompt_for(q)),
            ActionModel::Save(q, cleaned(raw)),
            ActionModel::Finish(Err(ResolveError::StoreUnavailable)),
        ],
{
}

/// Whatever the store and the model do, the only key that a resolution of `q` reads or writes
/// is `q` itself, and the prompt asks the question with a question mark at its end.
pub proof fn only_the_question_is_keyed(
    q: Seq<char>,
    lookup: EventModel,
    generation: EventModel,
    save: EventModel,
)
    requires
        lookup is Found || lookup is Missing || lookup is LookupFailed,
        generation is Generated || generation is GenerationFailed,
    ensures
        forall|i: int|
            0 <= i < run(q, lookup, generation, save).len() ==> match #[trigger] run(
                q,
                lookup,
                generation,
                save,
            )[i] {
                ActionModel::Lookup(k) => k == q,
                ActionModel::Save(k, _) => k == q,
                ActionModel::Generate(p) => p == prompt_for(q),
                ActionModel::Finish(_) => true,
            },
{
}

/// Decodes `bytes` as UTF-8.
/// Relies on `String::from_utf8`: it succeeds exactly when `bytes` is valid UTF-8,
/// and the string then holds the characters that the bytes encode.
#[verifier::external_body]
pub(crate) fn utf8_text(bytes: Vec<u8>) -> (r: Option<String>)
    ensures
        r is Some <==> valid_utf8(bytes@),
        r matches Some(s) ==> s@ == decode_utf8(bytes@),
{
    String::from_utf8(bytes).ok()
}

impl Resolver {
    /// Begins the resolution of a non-empty question; its first request is the lookup.
    pub fn start(question: String) -> (r: (Resolver, Action))
        requires
            question@.len() > 0,
        ensures
            (r.0@, r.1@) == started(question@),
    {
        let key = question.clone();
        (Resolver { question, phase: Phase::AwaitingLookup }, Action::Lookup(key))
    }

    /// The question being resolved.
    pub fn question(&self) -> (r: &String)
        ensures
            r@ == self@.question,
    {
        &self.question
    }

    /// Tells whether the resolution is over.
    pub fn is_finished(&self) -> (r: bool)
        ensures
            r == (self@.phase is Finished),
    {
        match self.phase {
            Phase::Finished => true,
            _ => false,
        }
    }

    /// Tells whether `e` answers the request that is pending.
    pub fn awaits(&self, e: &Event) -> (r: bool)
        ensures
            r == accepts(self@.phase, e@),
    {
        match self.phase {
            Phase::AwaitingLookup => match e {
                Event::Found(_) | Event::Missing | Event::LookupFailed => true,
                _ => false,
            },
            Phase::AwaitingGeneration => match e {
                Event::Generated(_) | Event::GenerationFailed => true,
                _ => false,
            },
            Phase::AwaitingSave(_) => match e {
                Event::Saved | Event::SaveFailed => true,
                _ => false,
            },
            Phase::Finished => false,
        }
    }

    fn finish(&mut self, outcome: Result<String, ResolveError>) -> (a: Action)
        ensures
            (final(self)@, a@) == finished(
                old(self)@.question,
                match outcome {
                    Ok(s) => Ok(s@),
                    Err(e) => Err(e),
                },
            ),
    {
        self.phase = Phase::Finished;
        Action::Finish(outcome)
    }

    fn regenerate(&mut self) -> (a: Action)
        ensures
            (final(self)@, a@) == regenerating(old(self)@.question),
    {
        self.phase = Phase::AwaitingGeneration;
        Action::Generate(build_prompt(self.question.as_str()))
    }

    /// Takes in the outcome of the pending request and returns the next request.
    pub fn step(&mut self, e: Event) -> (a: Action)
        requires
            accepts(old(self)@.phase, e@),
        ensures
            (final(self)@, a@) == next(old(self)@, e@),
    {
        match e {
            Event::Found(bytes) => match utf8_text(bytes) {
                None => self.finish(Err(ResolveError::StoreUnavailable)),
                Some(stored) => {
                    if is_placeholder_answer(stored.as_str()) {
                        self.regenerate()
                    } else {
                        self.finish(Ok(stored))
                    }
                },
            },
            Event::Missing => self.regenerate(),
            Event::LookupFailed => self.finish(Err(ResolveError::StoreUnavailable)),
            Event::Generated(raw) => {
                let fresh = clean_answer(raw.as_str());
                let value = fresh.clone();
                self.phase = Phase::AwaitingSave(fresh);
                Action::Save(self.question.clone(), value)
            },
            Event::GenerationFailed => self.finish(Err(ResolveError::GenerationFailed)),
            Event::Saved => {
                let answer = match &self.phase {
                    Phase::AwaitingSave(a) => a.clone(),
                    _ => String::new(),
                };
                self.finish(Ok(answer))
            },
            Event::SaveFailed => self.finish(Err(ResolveError::StoreUnavailable)),
        }
    }
}

} // verus!
