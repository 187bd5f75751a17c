//! The interaction router: stateless validation of inbound requests,
//! registry inserts and lookups, and the immediate replies. Every error
//! becomes a short, private text reply; no request is left unanswered.

use vstd::prelude::*;

use crate::numtext::dec_value;
use crate::numtext::is_digit_seq;
use crate::numtext::parse_u64;
use crate::numtext::str_eq;
use crate::quiz::Quiz;
use crate::registry::Registry;
use crate::registry::no_slots;

verus! {

/// Everything that can go wrong while handling one inbound request.
#[derive(Clone, Copy, Debug, PartialEq, Eq, Structural)]
pub enum Error {
    /// The request is of a kind the router does not handle.
    UnsupportedInteractionType,
    /// A command request that is not the create command.
    UnknownCommandName,
    /// The create command's single parameter is not the expected one.
    InvalidParameterName,
    /// The create command does not carry exactly one textual parameter.
    InvalidParameters,
    /// The supplied document reference does not parse as a location.
    InvalidReference,
    /// The document could not be retrieved.
    FetchFailure,
    /// The document does not decode to a quiz, its choice list is longer
    /// than a menu can carry, or its correct index is out of range.
    MalformedData,
    /// The vote request carries no identity of the submitting user.
    UnknownUser,
    /// The vote's payload or slot identifier is malformed, or its intake
    /// no longer accepts input.
    Unrecoverable,
    /// The vote names a slot id with no live quiz behind it.
    SlotNotFound,
}

impl Error {
    /// The user-visible text of this error.
    pub open spec fn text_spec(&self) -> Seq<char> {
        match self {
            Error::UnsupportedInteractionType => "This type of interaction is not supported."@,
            Error::UnknownCommandName => "That command is not known here."@,
            Error::InvalidParameterName => "The parameter has an unexpected name."@,
            Error::InvalidParameters => "Exactly one text parameter is expected."@,
            Error::InvalidReference => "That does not look like a valid location."@,
            Error::FetchFailure => "The quiz document could not be retrieved."@,
            Error::MalformedData => "The quiz data is malformed."@,
            Error::UnknownUser => "Your identity could not be determined."@,
            Error::Unrecoverable => "That selection could not be processed."@,
            Error::SlotNotFound => "That quiz is no longer accepting votes."@,
        }
    }

    /// The user-visible text of this error.
    pub fn text(&self) -> (s: &'static str)
        ensures
            s@ == self.text_spec(),
    {
        match self {
            Error::UnsupportedInteractionType => "This type of interaction is not supported.",
            Error::UnknownCommandName => "That command is not known here.",
            Error::InvalidParameterName => "The parameter has an unexpected name.",
            Error::InvalidParameters => "Exactly one text parameter is expected.",
            Error::InvalidReference => "That does not look like a valid location.",
            Error::FetchFailure => "The quiz document could not be retrieved.",
            Error::MalformedData => "The quiz data is malformed.",
            Error::UnknownUser => "Your identity could not be determined.",
            Error::Unrecoverable => "That selection could not be processed.",
            Error::SlotNotFound => "That quiz is no longer accepting votes.",
        }
    }
}

/// The value a command parameter carries: text, or something the create
/// command has no use for.
pub enum OptionValue {
    /// A textual parameter value.
    Text(String),
    /// Any non-textual parameter value.
    Other,
}

/// One named parameter of a command request.
pub struct CommandOption {
    /// The parameter's name.
    pub name: String,
    /// The parameter's value.
    pub value: OptionValue,
}

/// An inbound command request: a named command with its parameters.
pub struct CommandRequest {
    /// The command's name.
    pub name: String,
    /// The command's parameters.
    pub options: Vec<CommandOption>,
}

impl CommandRequest {
    /// Whether the request names the create command.
    pub open spec fn named_create(&self) -> bool {
        self.name@ == "create"@
    }

    /// Whether exactly one parameter is present and it carries text.
    pub open spec fn has_single_text_option(&self) -> bool {
        self.options@.len() == 1 && self.options@[0].value is Text
    }

    /// Whether the single parameter bears the expected name.
    pub open spec fn option_named_url(&self) -> bool {
        self.options@[0].name@ == "url"@
    }

    /// The document location the request supplies.
    pub open spec fn url(&self) -> Seq<char> {
        self.options@[0].value->Text_0@
    }

    /// Whether the create request is accepted as a whole.
    pub open spec fn create_ok(&self) -> bool {
        self.named_create() && self.has_single_text_option() && self.option_named_url()
    }

    /// The error a rejected create request draws.
    pub open spec fn create_error(&self) -> Error {
        if !self.named_create() {
            Error::UnknownCommandName
        } else if !self.has_single_text_option() {
            Error::InvalidParameters
        } else {
            Error::InvalidParameterName
        }
    }
}

/// An inbound vote request: a menu identifier, the selected values, and
/// the submitting participant's identity as the transport saw it.
pub struct ComponentRequest {
    /// The menu identifier, which should carry a slot id in decimal.
    pub custom_id: String,
    /// The selected values; only the last one counts.
    pub values: Vec<String>,
    /// The submitting user as named by a conversation membership.
    pub member_user: Option<u64>,
    /// The submitting user as named directly on the request.
    pub user: Option<u64>,
}

impl ComponentRequest {
    /// The submitting participant: the membership identity when present,
    /// else the direct one.
    pub open spec fn spec_voter(&self) -> Option<u64> {
        if self.member_user is Some {
            self.member_user
        } else {
            self.user
        }
    }

    /// Whether the menu identifier denotes a slot id.
    pub open spec fn slot_ref_ok(&self) -> bool {
        is_digit_seq(self.custom_id@) && dec_value(self.custom_id@) <= usize::MAX
    }

    /// The slot id the menu identifier denotes.
    pub open spec fn spec_slot(&self) -> int {
        dec_value(self.custom_id@)
    }

    /// Whether a selected value is present at all.
    pub open spec fn has_value(&self) -> bool {
        self.values@.len() > 0
    }

    /// Whether the selected value denotes a choice index.
    pub open spec fn choice_ok(&self) -> bool {
        is_digit_seq(self.values@.last()@) && dec_value(self.values@.last()@) <= usize::MAX
    }

    /// The choice index the selected value denotes.
    pub open spec fn spec_choice(&self) -> int {
        dec_value(self.values@.last()@)
    }
}

/// One inbound interaction, as the transport hands it over.
pub enum Interaction {
    /// A liveness check.
    Ping,
    /// A command request (quiz creation).
    Command(CommandRequest),
    /// A message component request (a vote).
    Component(ComponentRequest),
    /// Any other kind of interaction.
    Unknown,
}

/// One selectable choice of a quiz menu: the choice's text under its
/// zero-based index.
pub struct MenuOption {
    /// The choice's text.
    pub label: String,
    /// The choice's zero-based index.
    pub value: usize,
}

/// The selectable menu a created quiz is announced with; its identifier
/// is the quiz's slot id.
pub struct Menu {
    /// The slot id of the new quiz.
    pub id: usize,
    /// One option per choice, in order.
    pub options: Vec<MenuOption>,
}

/// An immediate reply to the requester.
pub enum Reply {
    /// Acknowledges a liveness check.
    Pong,
    /// A short text message; private to the requester when ephemeral.
    Message { content: String, ephemeral: bool },
    /// The question and its choice menu.
    Menu { content: String, menu: Menu },
}

/// What the surrounding runtime must do next for one interaction.
pub enum Action {
    /// Reply immediately.
    Respond(Reply),
    /// Fetch the quiz document at `url`, then hand the outcome back.
    FetchDocument { url: String },
    /// Forward the vote into the intake behind `token`, then acknowledge.
    ForwardVote { token: u64, voter: u64, choice: u64 },
}

/// An action that replies with an error's text, privately.
pub open spec fn is_error_reply(a: Action, e: Error) -> bool {
    &&& a matches Action::Respond(Reply::Message { content, ephemeral })
    &&& content@ == e.text_spec()
    &&& ephemeral
}

/// What the router decides for a vote request against a given slot table.
#[derive(PartialEq, Eq, Structural)]
pub enum VoteDecision {
    /// Forward the vote into the intake behind `token`.
    Forward { token: u64, voter: u64, choice: u64 },
    /// Reject the vote with this error.
    Reject(Error),
}

/// The vote decision: reject a malformed slot reference, a missing
/// identity, a missing or malformed selection, or a slot with no live
/// quiz, in that order; otherwise forward the vote to the slot's intake.
pub open spec fn vote_decision(m: Map<int, u64>, c: ComponentRequest) -> VoteDecision {
    if !c.slot_ref_ok() {
        VoteDecision::Reject(Error::Unrecoverable)
    } else if c.spec_voter() is None {
        VoteDecision::Reject(Error::UnknownUser)
    } else if !c.has_value() {
        VoteDecision::Reject(Error::Unrecoverable)
    } else if !c.choice_ok() {
        VoteDecision::Reject(Error::Unrecoverable)
    } else if !m.contains_key(c.spec_slot()) {
        VoteDecision::Reject(Error::SlotNotFound)
    } else {
        VoteDecision::Forward {
            token: m[c.spec_slot()],
            voter: c.spec_voter()->0,
            choice: c.spec_choice() as u64,
        }
    }
}

/// The outcome of fetching and decoding one quiz document.
pub enum DocumentResult {
    /// The document decoded to a quiz definition.
    Document(Quiz),
    /// The supplied reference did not parse as a location.
    BadReference,
    /// The document could not be retrieved.
    FetchFailed,
    /// The document did not decode to the quiz schema.
    Malformed,
}

/// Wraps an error into the single outward response shape: a short,
/// user-visible text message delivered privately to the requester.
pub fn error_reply(e: &Error) -> (r: Reply)
    ensures
        is_error_reply(Action::Respond(r), *e),
{
    Reply::Message { content: e.text().to_owned(), ephemeral: true }
}

/// The acknowledgment a forwarded vote is answered with.
pub fn vote_ack() -> (r: Reply)
    ensures
        r matches Reply::Message { content, ephemeral } && content@
            == "We have received your selection."@ && ephemeral,
{
    Reply::Message { content: "We have received your selection.".to_owned(), ephemeral: true }
}

/// Validates a create request and extracts the document location: the
/// command must be the create command carrying exactly one text
/// parameter under the expected name.
pub fn validate_create(c: &CommandRequest) -> (r: Result<String, Error>)
    ensures
        match r {
            Ok(url) => c.create_ok() && url@ == c.url(),
            Err(e) => !c.create_ok() && e == c.create_error(),
        },
{
    if !str_eq(c.name.as_str(), "create") {
        return Err(Error::UnknownCommandName);
    }
    if c.options.len() != 1 {
        return Err(Error::InvalidParameters);
    }
    let opt = &c.options[0];
    match &opt.value {
        OptionValue::Text(t) => {
            if !str_eq(opt.name.as_str(), "url") {
                return Err(Error::InvalidParameterName);
            }
            Ok(t.clone())
        },
        OptionValue::Other => Err(Error::InvalidParameters),
    }
}

/// The quiz lifecycle coordinator's shared state: the registry of
/// in-flight quizzes. The surrounding runtime guards it with one
/// reader/writer lock and passes votes on to the owning collectors.
pub struct Lobby {
    quizzes: Registry,
}

impl View for Lobby {
    type V = Map<int, u64>;

    closed spec fn view(&self) -> Map<int, u64> {
        self.quizzes@
    }
}

impl Lobby {
    /// A lobby with no quiz in flight.
    pub fn new() -> (l: Lobby)
        ensures
            l@ == no_slots(),
    {
        Lobby { quizzes: Registry::new() }
    }

    /// Decides one vote request against the current slot table, without
    /// touching any quiz's state.
    pub fn decide_vote(&self, c: &ComponentRequest) -> (d: VoteDecision)
        ensures
            d == vote_decision(self@, *c),
    {
        let slot: usize = match parse_u64(c.custom_id.as_str()) {
            Some(v) => {
                if v > usize::MAX as u64 {
                    return VoteDecision::Reject(Error::Unrecoverable);
                }
                v as usize
            },
            None => {
                return VoteDecision::Reject(Error::Unrecoverable);
            },
        };
        let voter: u64 = match c.member_user {
            Some(u) => u,
            None => match c.user {
                Some(u) => u,
                None => {
                    return VoteDecision::Reject(Error::UnknownUser);
                },
            },
        };
        if c.values.len() == 0 {
            return VoteDecision::Reject(Error::Unrecoverable);
        }
        let arg = &c.values[c.values.len() - 1];
        let choice: u64 = match parse_u64(arg.as_str()) {
            Some(v) => {
                if v > usize::MAX as u64 {
                    return VoteDecision::Reject(Error::Unrecoverable);
                }
                v
            },
            None => {
                return VoteDecision::Reject(Error::Unrecoverable);
            },
        };
        match self.quizzes.lookup(slot) {
            Some(token) => VoteDecision::Forward { token, voter, choice },
            None => VoteDecision::Reject(Error::SlotNotFound),
        }
    }

    /// Handles one inbound interaction: answers a ping at once, turns an
    /// accepted create request into a fetch, turns an accepted vote into
    /// a forward, and answers everything else with its error's text.
    pub fn on_interaction(&self, interaction: &Interaction) -> (a: Action)
        ensures
            match interaction {
                Interaction::Ping => a matches Action::Respond(Reply::Pong),
                Interaction::Unknown => is_error_reply(a, Error::UnsupportedInteractionType),
                Interaction::Command(c) => if c.create_ok() {
                    a matches Action::FetchDocument { url } && url@ == c.url()
                } else {
                    is_error_reply(a, c.create_error())
                },
                Interaction::Component(c) => match vote_decision(self@, *c) {
                    VoteDecision::Forward { token, voter, choice } => a
                        matches Action::ForwardVote { token: t, voter: v, choice: ch } && t
                        == token && v == voter && ch == choice,
                    VoteDecision::Reject(e) => is_error_reply(a, e),
                },
            },
    {
        match interaction {
            Interaction::Ping => Action::Respond(Reply::Pong),
            Interaction::Unknown => Action::Respond(
                error_reply(&Error::UnsupportedInteractionType),
            ),
            Interaction::Command(c) => match validate_create(c) {
                Ok(url) => Action::FetchDocument { url },
                Err(e) => Action::Respond(error_reply(&e)),
            },
            Interaction::Component(c) => match self.decide_vote(c) {
                VoteDecision::Forward { token, voter, choice } => Action::ForwardVote {
                    token,
                    voter,
                    choice,
                },
                VoteDecision::Reject(e) => Action::Respond(error_reply(&e)),
            },
        }
    }

    /// Finishes a create request once the document fetch has come back:
    /// on a valid definition the lowest free slot id is bound to the quiz's intake
    /// token and the choice menu is built under the new slot id; on any
    /// failure the matching error comes back and no slot is created.
    pub fn on_document(&mut self, doc: &DocumentResult, token: u64) -> (r: Result<Reply, Error>)
        ensures
            match r {
                Ok(reply) => {
                    &&& doc matches DocumentResult::Document(q)
                    &&& q.is_valid()
                    &&& reply matches Reply::Menu { content, menu }
                    &&& content@ == q.question@
                    &&& !old(self)@.contains_key(menu.id as int)
                    &&& forall|k: int| 0 <= k < menu.id ==> old(self)@.contains_key(k)
                    &&& final(self)@ == old(self)@.insert(menu.id as int, token)
                    &&& menu.options@.len() == q.choices@.len()
                    &&& forall|i: int|
                        0 <= i < menu.options@.len() ==> (#[trigger] menu.options@[i]).label@
                            == q.choices@[i]@ && menu.options@[i].value == i
                },
                Err(e) => {
                    &&& final(self)@ == old(self)@
                    &&& match doc {
                        DocumentResult::Document(q) => !q.is_valid() && e == Error::MalformedData,
                        DocumentResult::BadReference => e == Error::InvalidReference,
                        DocumentResult::FetchFailed => e == Error::FetchFailure,
                        DocumentResult::Malformed => e == Error::MalformedData,
                    }
                },
            },
    {
        match doc {
            DocumentResult::BadReference => Err(Error::InvalidReference),
            DocumentResult::FetchFailed => Err(Error::FetchFailure),
            DocumentResult::Malformed => Err(Error::MalformedData),
            DocumentResult::Document(q) => {
                if !q.validate() {
                    return Err(Error::MalformedData);
                }
                let mut options: Vec<MenuOption> = Vec::new();
                let n = q.choices.len();
                let mut i: usize = 0;
                while i < n
                    invariant
                        0 <= i <= n,
                        n == q.choices@.len(),
                        options@.len() == i,
                        forall|j: int|
                            0 <= j < i ==> (#[trigger] options@[j]).label@ == q.choices@[j]@
                                && options@[j].value == j,
                    decreases n - i,
                {
                    options.push(MenuOption { label: q.choices[i].clone(), value: i });
                    i = i + 1;
                }
                let id = self.quizzes.insert(token);
                Ok(Reply::Menu { content: q.question.clone(), menu: Menu { id, options } })
            },
        }
    }

    /// Removes a closed quiz's slot: its id no longer resolves and
    /// becomes eligible for reuse by a later create.
    pub fn close_quiz(&mut self, id: usize) -> (removed: bool)
        ensures
            final(self)@ == old(self)@.remove(id as int),
            removed == old(self)@.contains_key(id as int),
    {
        self.quizzes.remove(id)
    }
}

/// A vote naming a slot id with no live quiz behind it is rejected with
/// `SlotNotFound`, and the decision touches no state at all.
pub proof fn lemma_unknown_slot_rejected(m: Map<int, u64>, c: ComponentRequest)
    requires
        c.slot_ref_ok(),
        c.spec_voter() is Some,
        c.has_value(),
        c.choice_ok(),
        !m.contains_key(c.spec_slot()),
    ensures
        vote_decision(m, c) == VoteDecision::Reject(Error::SlotNotFound),
{
}

/// Once a quiz's slot is removed at close, a vote arriving for that id —
/// however soon — is rejected with `SlotNotFound`, never silently
/// accepted; votes for other live slots are still forwarded as before.
pub proof fn lemma_vote_after_close_rejected(m: Map<int, u64>, c: ComponentRequest, id: usize)
    requires
        c.slot_ref_ok(),
        c.spec_slot() == id as int,
        c.spec_voter() is Some,
        c.has_value(),
        c.choice_ok(),
    ensures
        vote_decision(m.remove(id as int), c) == VoteDecision::Reject(Error::SlotNotFound),
{
}

/// Live quizzes have distinct slot ids: a slot allocated while another
/// is still live gets another id; and removing a slot frees its id for
/// a later allocation.
pub proof fn lemma_slot_ids_distinct(m: Map<int, u64>, id1: usize, t1: u64, id2: usize, t2: u64)
    requires
        !m.contains_key(id1 as int),
        !m.insert(id1 as int, t1).contains_key(id2 as int),
    ensures
        id1 != id2,
        !m.insert(id1 as int, t1).insert(id2 as int, t2).remove(id1 as int).contains_key(
            id1 as int,
        ),
{
}

} // verus!
