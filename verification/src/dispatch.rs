//! The exchange that one message sets off, as a state machine: the caller
//! sends what a step hands out and reports back how the sending went.

use crate::command::{
    is_request, law_unrecognized_word_selects_all, parse_command, requested_variant, tokens,
};
use crate::suite::{
    is_report_of, run_benchmark, variant_word, word, Variant, CPU_LABEL, IO_LABEL, MEMORY_LABEL,
};
use vstd::prelude::*;

verus! {

/// What the acknowledgment says before the word that names the workload.
pub const ACKNOWLEDGMENT_OPENING: &'static str = "Exécution du benchmark '";

/// What the acknowledgment says after the word that names the workload.
pub const ACKNOWLEDGMENT_CLOSING: &'static str = "'...";

/// What the log says when the acknowledgment could not be sent.
pub const ACKNOWLEDGMENT_FAILURE: &'static str = "Erreur d'envoi : ";

/// What the log says when the report could not be sent.
pub const REPORT_FAILURE: &'static str = "Erreur d'envoi des résultats : ";

/// How far the exchange has come.
#[derive(Clone, Copy, Debug, PartialEq, Eq, Structural)]
pub enum Phase {
    /// No request is being served.
    Idle,
    /// The acknowledgment of a request for this workload is being sent.
    Acknowledging(Variant),
    /// The report is being sent.
    Reporting,
}

/// What happened outside the library.
#[derive(Clone, Debug, PartialEq, Eq)]
pub enum Event {
    /// A message with this text has come in.
    Message(String),
    /// What the last step handed out has been sent.
    Sent,
    /// What the last step handed out could not be sent, for this reason.
    SendFailed(String),
}

/// What the caller is to do next.
#[derive(Clone, Debug, PartialEq, Eq)]
pub enum Action {
    /// Nothing: the exchange is over, or there was none.
    Nothing,
    /// Send this text to the channel of the message, then report how it went.
    Send(String),
    /// Write this line to the log; the exchange is over.
    Log(String),
}

/// The acknowledgment of a request for the workload `variant`: it names the
/// workload that will run, by its own word.
pub open spec fn acknowledgment_text(variant: Variant) -> Seq<char> {
    ACKNOWLEDGMENT_OPENING@ + word(variant) + ACKNOWLEDGMENT_CLOSING@
}

/// The steps that the exchange can take: from `phase`, on `event`, to `next`
/// with `action`.
///
/// A request is acknowledged first. Only when the acknowledgment has been
/// sent does the workload run, and its report goes out. A failure to send
/// ends the exchange with a line for the log. Every other message, and
/// every event that the phase does not wait for, changes nothing.
pub open spec fn transition(phase: Phase, event: Event, next: Phase, action: Action) -> bool {
    match (phase, event) {
        (Phase::Idle, Event::Message(content)) => if is_request(content@) {
            &&& next == Phase::Acknowledging(requested_variant(content@))
            &&& action matches Action::Send(text)
            &&& text@ == acknowledgment_text(requested_variant(content@))
        } else {
            next == Phase::Idle && action is Nothing
        },
        (Phase::Acknowledging(variant), Event::Sent) => {
            &&& next == Phase::Reporting
            &&& action matches Action::Send(text)
            &&& is_report_of(variant, text@)
        },
        (Phase::Acknowledging(_), Event::SendFailed(reason)) => {
            &&& next == Phase::Idle
            &&& action matches Action::Log(line)
            &&& line@ == ACKNOWLEDGMENT_FAILURE@ + reason@
        },
        (Phase::Reporting, Event::Sent) => next == Phase::Idle && action is Nothing,
        (Phase::Reporting, Event::SendFailed(reason)) => {
            &&& next == Phase::Idle
            &&& action matches Action::Log(line)
            &&& line@ == REPORT_FAILURE@ + reason@
        },
        _ => next == phase && action is Nothing,
    }
}

/// Writes the acknowledgment of a request for the workload `variant`.
pub fn acknowledgment(variant: Variant) -> (text: String)
    ensures
        text@ == acknowledgment_text(variant),
{
    let mut text = String::from_str(ACKNOWLEDGMENT_OPENING);
    text.append(variant_word(variant));
    text.append(ACKNOWLEDGMENT_CLOSING);
    text
}

/// Takes one step of the exchange. The workload of a request runs inside
/// the step that learns that the acknowledgment has been sent.
pub fn step(phase: Phase, event: Event) -> (outcome: (Phase, Action))
    ensures
        transition(phase, event, outcome.0, outcome.1),
{
    match phase {
        Phase::Idle => match event {
            Event::Message(content) => match parse_command(content.as_str()) {
                Some(variant) => (
                    Phase::Acknowledging(variant),
                    Action::Send(acknowledgment(variant)),
                ),
                None => (Phase::Idle, Action::Nothing),
            },
            _ => (phase, Action::Nothing),
        },
        Phase::Acknowledging(variant) => match event {
            Event::Sent => (Phase::Reporting, Action::Send(run_benchmark(variant))),
            Event::SendFailed(reason) => {
                let mut line = String::from_str(ACKNOWLEDGMENT_FAILURE);
                line.append(reason.as_str());
                (Phase::Idle, Action::Log(line))
            },
            _ => (phase, Action::Nothing),
        },
        Phase::Reporting => match event {
            Event::Sent => (Phase::Idle, Action::Nothing),
            Event::SendFailed(reason) => {
                let mut line = String::from_str(REPORT_FAILURE);
                line.append(reason.as_str());
                (Phase::Idle, Action::Log(line))
            },
            _ => (phase, Action::Nothing),
        },
    }
}

/// A message that does not start with the trigger sets nothing off: no
/// reply is handed out, and no request is being served afterwards.
pub proof fn law_other_messages_are_ignored(content: String, next: Phase, action: Action)
    requires
        !is_request(content@),
        transition(Phase::Idle, Event::Message(content), next, action),
    ensures
        next == Phase::Idle,
        action is Nothing,
{
}

/// A request whose second token is none of the three words that name a
/// single workload is served as a request without a second token is: both
/// are acknowledged with the same text, which names the run of all
/// workloads, and both wait for that acknowledgment to be sent before all
/// workloads run.
pub proof fn law_unrecognized_request_is_like_bare_request(
    bare: String,
    other: String,
    bare_next: Phase,
    bare_action: Action,
    other_next: Phase,
    other_action: Action,
)
    requires
        is_request(bare@),
        is_request(other@),
        tokens(bare@).len() <= 1,
        tokens(other@).len() > 1,
        tokens(other@)[1] != CPU_LABEL@,
        tokens(other@)[1] != MEMORY_LABEL@,
        tokens(other@)[1] != IO_LABEL@,
        transition(Phase::Idle, Event::Message(bare), bare_next, bare_action),
        transition(Phase::Idle, Event::Message(other), other_next, other_action),
    ensures
        requested_variant(other@) == Variant::All,
        requested_variant(bare@) == Variant::All,
        other_next == bare_next,
        bare_next == Phase::Acknowledging(Variant::All),
        bare_action matches Action::Send(bare_text) && other_action matches Action::Send(
            other_text,
        ) && other_text@ == bare_text@ && bare_text@ == acknowledgment_text(Variant::All),
{
    law_unrecognized_word_selects_all(tokens(other@)[1]);
}

/// When the acknowledgment cannot be sent, the exchange is over: the step
/// hands out a line for the log and neither a report nor anything else to
/// send, and no later report of a sending sets anything off.
pub proof fn law_failed_acknowledgment_ends_the_exchange(
    variant: Variant,
    reason: String,
    next: Phase,
    action: Action,
    later: Event,
    after: Phase,
    last: Action,
)
    requires
        transition(Phase::Acknowledging(variant), Event::SendFailed(reason), next, action),
        !(later is Message),
        transition(next, later, after, last),
    ensures
        next == Phase::Idle,
        action is Log,
        after == Phase::Idle,
        last is Nothing,
{
}

} // verus!
