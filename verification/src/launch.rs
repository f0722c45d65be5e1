//! Starting a session: choosing the executable, tokenizing the
//! user-supplied extra arguments, and interpreting the outcomes of the
//! health probe and of the handshake. Running the probe, spawning the
//! process and awaiting the handshake are the caller's work; the decisions
//! about their outcomes are made here.

use vstd::prelude::*;
use crate::events::{EngineEvent, EventModel, event_model};
use crate::text::{all_ws, is_blank, trimmed, trim_ws};
use crate::wire::{has_field, json_model, rendered, value_get, value_to_text, JsonData};

verus! {

/// What shell_words reads a command line as: its tokens, or nothing when
/// the quoting is mismatched; the result depends on the text alone.
pub uninterp spec fn shell_split(s: Seq<char>) -> Option<Seq<Seq<char>>>;

/// Relies on shell_words::split: tokenizes a line the way a POSIX shell
/// would, failing exactly on mismatched quoting.
#[verifier::external_body]
fn split_shell(raw: &str) -> (r: Result<Vec<String>, String>)
    ensures
        (r is Ok) == (shell_split(raw@) is Some),
        r matches Ok(parts) ==> shell_split(raw@) == Some(parts.deep_view()),
{
    shell_words::split(raw).map_err(|e| e.to_string())
}

/// The tokens kept from a tokenized argument line: the non-empty ones.
pub open spec fn keep_nonempty(parts: Seq<Seq<char>>) -> Seq<Seq<char>>
    decreases parts.len(),
{
    if parts.len() == 0 {
        Seq::empty()
    } else if parts.last().len() > 0 {
        keep_nonempty(parts.drop_last()).push(parts.last())
    } else {
        keep_nonempty(parts.drop_last())
    }
}

/// Tokenizes the user-supplied extra arguments: nothing, or a blank line,
/// yields no arguments; anything else is shell-tokenized after trimming,
/// keeping the non-empty tokens; mismatched quoting is rejected.
pub fn parse_copilot_args(value: Option<&str>) -> (r: Result<Vec<String>, String>)
    ensures
        match value {
            Option::None => r matches Ok(v) && v@.len() == 0,
            Option::Some(raw) => {
                if all_ws(raw@) {
                    r matches Ok(v) && v@.len() == 0
                } else {
                    match shell_split(trimmed(raw@)) {
                        Option::Some(parts) => r matches Ok(v) && v.deep_view() == keep_nonempty(
                            parts,
                        ),
                        Option::None => r is Err,
                    }
                }
            },
        },
{
    let raw = match value {
        Option::None => {
            return Ok(Vec::new());
        },
        Option::Some(raw) => raw,
    };
    if is_blank(raw) {
        return Ok(Vec::new());
    }
    let t = trim_ws(raw);
    let parts = match split_shell(t.as_str()) {
        Err(e) => {
            return Err("Invalid Copilot args: ".to_owned().concat(e.as_str()));
        },
        Ok(parts) => parts,
    };
    let mut kept: Vec<String> = Vec::new();
    let mut i: usize = 0;
    while i < parts.len()
        invariant
            0 <= i <= parts@.len(),
            kept.deep_view() == keep_nonempty(parts.deep_view().subrange(0, i as int)),
        decreases parts@.len() - i,
    {
        let ghost prefix = parts.deep_view().subrange(0, i as int);
        let ghost prefix1 = parts.deep_view().subrange(0, i + 1 as int);
        proof {
            assert(prefix1.drop_last() =~= prefix);
            assert(prefix1.last() == parts.deep_view()[i as int]);
            assert(parts.deep_view()[i as int] == parts@[i as int]@);
        }
        let arg = &parts[i];
        if !arg.as_str().is_empty() {
            kept.push(arg.clone());
            proof {
                assert(kept.deep_view() =~= keep_nonempty(prefix1));
            }
        } else {
            proof {
                assert(kept.deep_view() =~= keep_nonempty(prefix1));
            }
        }
        i = i + 1;
    }
    proof {
        assert(parts.deep_view().subrange(0, parts@.len() as int) =~= parts.deep_view());
    }
    Ok(kept)
}

/// The executable to launch: the configured name when it has any
/// non-whitespace content, else the default `copilot`.
pub fn effective_copilot_bin(copilot_bin: Option<&str>) -> (r: String)
    ensures
        match copilot_bin {
            Option::Some(b) => if all_ws(b@) {
                r@ == "copilot"@
            } else {
                r@ == b@
            },
            Option::None => r@ == "copilot"@,
        },
{
    match copilot_bin {
        Option::Some(b) => if is_blank(b) {
            "copilot".to_owned()
        } else {
            b.to_owned()
        },
        Option::None => "copilot".to_owned(),
    }
}

/// The observed outcome of running the executable with its version flag
/// under a short deadline.
pub enum ProbeOutcome {
    /// The deadline passed before the probe finished.
    TimedOut,
    /// The executable does not exist.
    NotFound,
    /// Launching failed some other way; the text is the launcher's error.
    LaunchFailed(String),
    /// The probe ran to completion, with the captured output of both
    /// streams.
    Finished { success: bool, out_text: String, err_text: String },
}

/// The detail quoted in a failure message: the trimmed diagnostic stream,
/// or the trimmed output stream when the former is empty.
pub open spec fn probe_detail(out_text: Seq<char>, err_text: Seq<char>) -> Seq<char> {
    if trimmed(err_text).len() > 0 {
        trimmed(err_text)
    } else {
        trimmed(out_text)
    }
}

pub open spec fn probe_failure_message(out_text: Seq<char>, err_text: Seq<char>) -> Seq<char> {
    if probe_detail(out_text, err_text).len() == 0 {
        "Copilot CLI failed to start. Try running `copilot --version` in Terminal."@
    } else {
        "Copilot CLI failed to start: "@ + probe_detail(out_text, err_text)
            + ". Try running `copilot --version` in Terminal."@
    }
}

/// Interprets the health probe's outcome, keeping the operator-facing
/// failures distinct: a missing executable, an unresponsive one, and one
/// that ran and failed each get their own message, never a generic one.
/// Success carries the trimmed version text, when there is any.
pub fn interpret_probe(outcome: ProbeOutcome) -> (r: Result<Option<String>, String>)
    ensures
        outcome is TimedOut ==> (r matches Err(e) && e@
            == "Timed out while checking Copilot CLI. Make sure `copilot --version` runs in Terminal."@),
        outcome is NotFound ==> (r matches Err(e) && e@
            == "Copilot CLI not found. Install Copilot CLI and ensure `copilot` is on your PATH."@),
        outcome matches ProbeOutcome::LaunchFailed(m) ==> (r matches Err(e) && e@ == m@),
        outcome matches ProbeOutcome::Finished { success: false, out_text, err_text } ==> (r
            matches Err(e) && e@ == probe_failure_message(out_text@, err_text@)),
        outcome matches ProbeOutcome::Finished { success: true, out_text, err_text } ==> (if trimmed(
            out_text@,
        ).len() == 0 {
            r == Ok::<Option<String>, String>(Option::None)
        } else {
            r matches Ok(v) && v matches Some(ver) && ver@ == trimmed(out_text@)
        }),
{
    match outcome {
        ProbeOutcome::TimedOut => Err(
            "Timed out while checking Copilot CLI. Make sure `copilot --version` runs in Terminal.".to_owned(),
        ),
        ProbeOutcome::NotFound => Err(
            "Copilot CLI not found. Install Copilot CLI and ensure `copilot` is on your PATH.".to_owned(),
        ),
        ProbeOutcome::LaunchFailed(m) => Err(m),
        ProbeOutcome::Finished { success, out_text, err_text } => {
            if !success {
                let err_trimmed = trim_ws(err_text.as_str());
                let detail = if !err_trimmed.as_str().is_empty() {
                    err_trimmed
                } else {
                    trim_ws(out_text.as_str())
                };
                if detail.as_str().is_empty() {
                    Err(
                        "Copilot CLI failed to start. Try running `copilot --version` in Terminal.".to_owned(),
                    )
                } else {
                    Err(
                        "Copilot CLI failed to start: ".to_owned().concat(detail.as_str()).concat(
                            ". Try running `copilot --version` in Terminal.",
                        ),
                    )
                }
            } else {
                let version = trim_ws(out_text.as_str());
                if version.as_str().is_empty() {
                    Ok(Option::None)
                } else {
                    Ok(Option::Some(version))
                }
            }
        },
    }
}

/// The observed outcome of the handshake request.
pub enum HandshakeOutcome {
    /// The deadline passed before any response.
    TimedOut,
    /// The request itself failed: the write failed, or the session went
    /// away and the slot resolved as canceled.
    RequestFailed(String),
    /// A response arrived.
    Responded(serde_json::Value),
}

pub open spec fn handshake_rejection(j: JsonData) -> Seq<char> {
    "Copilot ACP initialize failed: "@ + rendered(j)
}

/// Interprets the handshake's outcome: a timeout and an error-shaped
/// response each fail the start with a distinct, descriptive message
/// (the caller then tears the process down); a clean response yields the
/// connected event.
pub fn interpret_handshake(outcome: HandshakeOutcome) -> (r: Result<EngineEvent, String>)
    ensures
        outcome is TimedOut ==> (r matches Err(e) && e@
            == "Copilot ACP did not respond to initialize. Check that `copilot --acp --stdio` works in Terminal."@),
        outcome matches HandshakeOutcome::RequestFailed(m) ==> (r matches Err(e) && e@ == m@),
        outcome matches HandshakeOutcome::Responded(v) ==> (if has_field(json_model(v), "error"@) {
            r matches Err(e) && e@ == handshake_rejection(json_model(v))
        } else {
            r matches Ok(ev) && event_model(ev) == EventModel::Connected
        }),
{
    match outcome {
        HandshakeOutcome::TimedOut => Err(
            "Copilot ACP did not respond to initialize. Check that `copilot --acp --stdio` works in Terminal.".to_owned(),
        ),
        HandshakeOutcome::RequestFailed(m) => Err(m),
        HandshakeOutcome::Responded(v) => {
            let has_error = match value_get(&v, "error") {
                Some(_) => true,
                None => false,
            };
            if has_error {
                let body = value_to_text(&v);
                Err("Copilot ACP initialize failed: ".to_owned().concat(body.as_str()))
            } else {
                Ok(EngineEvent::Connected)
            }
        },
    }
}

} // verus!
