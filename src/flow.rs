use vstd::prelude::*;
use vstd::string::*;
use crate::client::first_completion;
use crate::error::CommitError;
use crate::models::{ChatRequest, ChatResponse, Message, ModelInfo, Role};
use crate::prompt::{
    compose_generate, compose_improve, conversation_of, generate_conversation,
    improve_conversation,
};
use crate::settings::{ids_of, validate_model};

verus! {

/// The subject handed to the model when the user gave none.
pub const NO_SUBJECT: &'static str = "--";

/// Lines between the staged and the unstaged diff when both are sent.
pub const DIFF_SEPARATOR: &'static str = "\n\n";

/// Whether `c` has the Unicode property White_Space.
pub open spec fn is_white_space(c: char) -> bool {
    let u = c as u32;
    ||| 0x09 <= u <= 0x0D
    ||| u == 0x20
    ||| u == 0x85
    ||| u == 0xA0
    ||| u == 0x1680
    ||| 0x2000 <= u <= 0x200A
    ||| u == 0x2028
    ||| u == 0x2029
    ||| u == 0x202F
    ||| u == 0x205F
    ||| u == 0x3000
}

/// `s` without its leading whitespace.
pub open spec fn trim_start(s: Seq<char>) -> Seq<char>
    decreases s.len(),
{
    if s.len() > 0 && is_white_space(s[0]) {
        trim_start(s.drop_first())
    } else {
        s
    }
}

/// `s` without its trailing whitespace.
pub open spec fn trim_end(s: Seq<char>) -> Seq<char>
    decreases s.len(),
{
    if s.len() > 0 && is_white_space(s.last()) {
        trim_end(s.drop_last())
    } else {
        s
    }
}

/// `s` without its leading and trailing whitespace.
pub open spec fn trimmed(s: Seq<char>) -> Seq<char> {
    trim_end(trim_start(s))
}

/// Relies on `str::trim`, which removes the leading and trailing characters
/// that have the Unicode property White_Space.
#[verifier::external_body]
fn trim_text(s: &str) -> (r: String)
    ensures
        r@ == trimmed(s@),
{
    s.trim().to_owned()
}

/// What the user asked of one commit.
#[derive(Debug, Clone)]
pub struct CommitOptions {
    /// The model that writes the message.
    pub model: String,
    /// The subject to use; the model chooses one when there is none.
    pub subject: Option<String>,
    /// A drafted message to improve instead of writing a new one.
    pub message: Option<String>,
    /// Whether unstaged changes are sent and committed too.
    pub add: bool,
    /// Whether the message is only printed.
    pub dry_run: bool,
}

/// What remains to be done once the message is known.
#[derive(Debug, Clone)]
pub enum CommitAction {
    /// Print the message and commit nothing.
    Print(String),
    /// Commit with the message, with unstaged changes when `add` is set.
    Commit { message: String, add: bool },
}

/// The model to use: the one given for this run, else the configured one.
pub fn resolve_model(override_model: Option<String>, configured: String) -> (r: String)
    ensures
        override_model matches Some(m) ==> r == m,
        override_model is None ==> r == configured,
{
    match override_model {
        Some(m) => m,
        None => configured,
    }
}

/// The check of the chosen model against the provider's listing, which
/// comes before any diff is read.
pub fn check_model(
    opts: &CommitOptions,
    listing: Result<Vec<ModelInfo>, CommitError>,
) -> (r: Result<(), CommitError>)
    ensures
        listing matches Err(e) ==> r == Err::<(), CommitError>(e),
        listing matches Ok(ms) ==> (r is Ok <==> ids_of(ms@).contains(opts.model@)),
        listing matches Ok(ms) ==> (r is Err ==> r == Err::<(), CommitError>(
            CommitError::Validation,
        )),
{
    match validate_model(listing, opts.model.as_str()) {
        Ok(true) => Ok(()),
        Ok(false) => Err(CommitError::Validation),
        Err(e) => Err(e),
    }
}

/// The diff that is sent: the staged one, followed by a blank line and the
/// unstaged one when `add` is set.
pub open spec fn combined_diff(staged: Seq<char>, unstaged: Seq<char>, add: bool) -> Seq<char> {
    if add {
        staged + DIFF_SEPARATOR@ + unstaged
    } else {
        staged
    }
}

/// The diff that is sent, from the staged and the unstaged diff.
pub fn combine_diff(staged: &str, unstaged: &str, add: bool) -> (r: String)
    ensures
        r@ == combined_diff(staged@, unstaged@, add),
{
    let mut d = staged.to_owned();
    if add {
        d.append(DIFF_SEPARATOR);
        d.append(unstaged);
    }
    d
}

/// The subject written into the instructions.
pub open spec fn subject_text(subject: Option<String>) -> Seq<char> {
    match subject {
        Some(s) => s@,
        None => NO_SUBJECT@,
    }
}

/// The conversation sent for a diff: an improvement of the drafted message
/// when there is one, else a new message with the subject.
pub open spec fn planned_conversation(opts: CommitOptions, diff: Seq<char>) -> Seq<(Role, Seq<char>)> {
    match opts.message {
        Some(prior) => improve_conversation(diff, prior@),
        None => generate_conversation(subject_text(opts.subject), diff),
    }
}

/// The messages for a diff; an empty diff leaves nothing to do.
pub fn plan_messages(opts: &CommitOptions, diff: &str) -> (r: Result<Vec<Message>, CommitError>)
    ensures
        diff@.len() == 0 <==> r is Err,
        r matches Err(e) ==> e == CommitError::EmptyDiff,
        r matches Ok(ms) ==> conversation_of(ms@) == planned_conversation(*opts, diff@),
{
    if diff.is_empty() {
        return Err(CommitError::EmptyDiff);
    }
    match &opts.message {
        Some(prior) => Ok(compose_improve(diff, prior.as_str())),
        None => {
            let ms = match &opts.subject {
                Some(s) => compose_generate(s.as_str(), diff),
                None => compose_generate(NO_SUBJECT, diff),
            };
            Ok(ms)
        },
    }
}

/// Whether no change that would be sent was read: the staged diff is empty,
/// and so is the unstaged one or it is not sent.
pub open spec fn nothing_to_commit(staged: Seq<char>, unstaged: Seq<char>, add: bool) -> bool {
    staged.len() == 0 && (!add || unstaged.len() == 0)
}

/// The chat-completion request for the diffs that were read. When no change
/// that would be sent was read, no request is made and the run stops.
pub fn request_for_diffs(
    opts: &CommitOptions,
    staged: &str,
    unstaged: &str,
) -> (r: Result<ChatRequest, CommitError>)
    ensures
        nothing_to_commit(staged@, unstaged@, opts.add) <==> r is Err,
        r matches Err(e) ==> e == CommitError::EmptyDiff,
        r matches Ok(req) ==> {
            &&& req.model == opts.model
            &&& conversation_of(req.messages@) == planned_conversation(
                *opts,
                combined_diff(staged@, unstaged@, opts.add),
            )
        },
{
    if staged.is_empty() && (!opts.add || unstaged.is_empty()) {
        return Err(CommitError::EmptyDiff);
    }
    let diff = combine_diff(staged, unstaged, opts.add);
    proof {
        reveal_strlit("\n\n");
    }
    match plan_messages(opts, diff.as_str()) {
        Ok(messages) => Ok(ChatRequest { model: opts.model.clone(), messages }),
        Err(e) => Err(e),
    }
}

/// What to do with a message that has been trimmed: print it on a dry run,
/// else commit with it.
pub fn decide_action(message: String, dry_run: bool, add: bool) -> (r: CommitAction)
    ensures
        dry_run ==> r == CommitAction::Print(message),
        !dry_run ==> r == (CommitAction::Commit { message, add }),
{
    if dry_run {
        CommitAction::Print(message)
    } else {
        CommitAction::Commit { message, add }
    }
}

/// What to do once the chat-completion call has answered: the first
/// completion, trimmed, is printed on a dry run and committed otherwise.
pub fn action_for_response(
    opts: &CommitOptions,
    response: Result<ChatResponse, CommitError>,
) -> (r: Result<CommitAction, CommitError>)
    ensures
        response matches Err(e) ==> r == Err::<CommitAction, CommitError>(e),
        response matches Ok(resp) ==> (resp.choices@.len() == 0 <==> r == Err::<
            CommitAction,
            CommitError,
        >(CommitError::MalformedResponse)),
        response matches Ok(resp) ==> (resp.choices@.len() > 0 ==> r is Ok),
        r matches Ok(a) ==> response matches Ok(resp) && resp.choices@.len() > 0 && {
            let text = trimmed(resp.choices@[0].message.content@);
            &&& opts.dry_run ==> (a matches CommitAction::Print(m) && m@ == text)
            &&& !opts.dry_run ==> (a matches CommitAction::Commit { message, add } && message@
                == text && add == opts.add)
        },
{
    let resp = match response {
        Ok(resp) => resp,
        Err(e) => return Err(e),
    };
    match first_completion(&resp) {
        Ok(text) => Ok(decide_action(trim_text(text.as_str()), opts.dry_run, opts.add)),
        Err(e) => Err(e),
    }
}

} // verus!
