//! One run of a script: its stages, the error of the stage that failed, and
//! the outcome that the host receives.
use crate::codec::{
    encode, member_views, to_neutral, Member, MemberModel, NeutralModel, NeutralValue,
};
use crate::output::OutputBuffer;
use crate::value::{GuestValue, ValueModel};
use vstd::prelude::*;
use vstd::string::StringExecFns;

verus! {

/// The stages of a run, in the order in which they are taken.
#[derive(Clone, Copy, Debug, PartialEq, Eq, Structural)]
pub enum Stage {
    /// Reading the script text that the host handed over.
    ReadCode,
    /// Putting the line sink in place of the script's `print`.
    InstallPrint,
    /// Putting the concatenating sink in place of the script's `io.write`.
    InstallWrite,
    /// Adding the module loader to the interpreter's search.
    InstallLoader,
    /// Binding the host state calls to their global name.
    InstallState,
    /// Evaluating the script.
    Evaluate,
    /// Converting the returned value.
    Serialize,
}

impl Stage {
    /// The words that begin the error of a failure at this stage.
    pub open spec fn tag(self) -> Seq<char> {
        match self {
            Stage::ReadCode => "Failed to read code: "@,
            Stage::InstallPrint => "Failed to install print collector: "@,
            Stage::InstallWrite => "Failed to install io.write collector: "@,
            Stage::InstallLoader => "Failed to install require loader: "@,
            Stage::InstallState => "Failed to install RDF API: "@,
            Stage::Evaluate => "runtime error: "@,
            Stage::Serialize => "Cannot serialize return value: "@,
        }
    }

    /// The stage that follows this one, if any.
    pub open spec fn following(self) -> Option<Stage> {
        match self {
            Stage::ReadCode => Some(Stage::InstallPrint),
            Stage::InstallPrint => Some(Stage::InstallWrite),
            Stage::InstallWrite => Some(Stage::InstallLoader),
            Stage::InstallLoader => Some(Stage::InstallState),
            Stage::InstallState => Some(Stage::Evaluate),
            Stage::Evaluate => Some(Stage::Serialize),
            Stage::Serialize => None,
        }
    }

    /// The stage with which every run begins.
    pub fn first() -> (s: Stage)
        ensures
            s == Stage::ReadCode,
    {
        Stage::ReadCode
    }

    /// The stage that follows this one, if any.
    pub fn next(self) -> (r: Option<Stage>)
        ensures
            r == self.following(),
    {
        match self {
            Stage::ReadCode => Some(Stage::InstallPrint),
            Stage::InstallPrint => Some(Stage::InstallWrite),
            Stage::InstallWrite => Some(Stage::InstallLoader),
            Stage::InstallLoader => Some(Stage::InstallState),
            Stage::InstallState => Some(Stage::Evaluate),
            Stage::Evaluate => Some(Stage::Serialize),
            Stage::Serialize => None,
        }
    }
}

/// The error message of a run in which `stage` failed for the reason `detail`.
pub fn stage_error(stage: Stage, detail: &str) -> (s: String)
    ensures
        s@ == stage.tag() + detail@,
{
    let mut s = match stage {
        Stage::ReadCode => String::from_str("Failed to read code: "),
        Stage::InstallPrint => String::from_str("Failed to install print collector: "),
        Stage::InstallWrite => String::from_str("Failed to install io.write collector: "),
        Stage::InstallLoader => String::from_str("Failed to install require loader: "),
        Stage::InstallState => String::from_str("Failed to install RDF API: "),
        Stage::Evaluate => String::from_str("runtime error: "),
        Stage::Serialize => String::from_str("Cannot serialize return value: "),
    };
    s.append(detail);
    s
}

/// What a run comes to: the returned value with the captured output, or the
/// message of the one error that ended it.
#[derive(Debug, PartialEq)]
pub enum Outcome {
    Success { result: NeutralValue, output: String },
    Failure { message: String },
}

/// The record that the host receives for a successful run.
pub open spec fn success_record(result: NeutralModel, output: Seq<char>) -> NeutralModel {
    NeutralModel::Object(
        seq![
            MemberModel { name: "result"@, value: result },
            MemberModel { name: "output"@, value: NeutralModel::Text(output) },
            MemberModel { name: "error"@, value: NeutralModel::Null },
        ],
    )
}

/// The record that the host receives for a failed run.
pub open spec fn failure_record(message: Seq<char>) -> NeutralModel {
    NeutralModel::Object(
        seq![
            MemberModel { name: "result"@, value: NeutralModel::Null },
            MemberModel { name: "error"@, value: NeutralModel::Text(message) },
        ],
    )
}

impl Outcome {
    /// The record of this outcome.
    pub open spec fn record_of(self) -> NeutralModel {
        match self {
            Outcome::Success { result, output } => success_record(result@, output@),
            Outcome::Failure { message } => failure_record(message@),
        }
    }

    /// The record that the host receives: the returned value, the captured
    /// output and a null error for a success; a null result and the message
    /// for a failure.
    pub fn record(&self) -> (r: NeutralValue)
        ensures
            r@ == self.record_of(),
    {
        let mut members: Vec<Member> = Vec::new();
        match self {
            Outcome::Success { result, output } => {
                members.push(Member::new("result", result.clone()));
                members.push(Member::new("output", NeutralValue::text(output.clone())));
                members.push(Member::new("error", NeutralValue::null()));
            },
            Outcome::Failure { message } => {
                members.push(Member::new("result", NeutralValue::null()));
                members.push(Member::new("error", NeutralValue::text(message.clone())));
            },
        }
        assert(member_views(members@) =~= self.record_of()->Object_0);
        NeutralValue::object(members)
    }
}

/// What follows a stage.
#[derive(Debug, PartialEq)]
pub enum RunStep {
    /// The stage succeeded: take this one next.
    Proceed(Stage),
    /// The stage failed: the run is over with this outcome.
    Stop(Outcome),
    /// The stage succeeded and was the last.
    Complete,
}

/// Decides what follows `stage`, from how it went. A failure ends the run at
/// once with the error of that stage; nothing is tried again. After a
/// success the next stage is due, if one is left.
pub fn advance(stage: Stage, result: Result<(), String>) -> (step: RunStep)
    ensures
        match result {
            Err(detail) => step matches RunStep::Stop(Outcome::Failure { message }) && message@
                == stage.tag() + detail@,
            Ok(_) => match stage.following() {
                Some(next) => step == RunStep::Proceed(next),
                None => step == RunStep::Complete,
            },
        },
{
    match result {
        Err(detail) => RunStep::Stop(
            Outcome::Failure { message: stage_error(stage, detail.as_str()) },
        ),
        Ok(_) => match stage.next() {
            Some(next) => RunStep::Proceed(next),
            None => RunStep::Complete,
        },
    }
}

/// The text that stands for a returned value that cannot be represented: a
/// string that is not valid text, a function, a thread or user data.
pub open spec fn returned_placeholder() -> Seq<char> {
    "<invalid utf8>"@
}

/// The neutral form of the value that a script returned, or the detail of
/// the failure to convert it.
///
/// A scalar, a text and a table of such values have their neutral form. A
/// string that is not valid text, a function, a thread and user data are
/// returned as the one placeholder text. What is left has no form and fails:
/// an error value, and a table that holds a value without neutral form or a
/// record key that is not text.
pub open spec fn returned_form(v: ValueModel) -> Result<NeutralModel, Seq<char>> {
    match v {
        ValueModel::Bytes(_) => Ok(NeutralModel::Text(returned_placeholder())),
        ValueModel::Function => Ok(NeutralModel::Text(returned_placeholder())),
        ValueModel::Thread => Ok(NeutralModel::Text(returned_placeholder())),
        ValueModel::UserData => Ok(NeutralModel::Text(returned_placeholder())),
        _ => match encode(v) {
            Ok(n) => Ok(n),
            Err(e) => Err(e.message_text()),
        },
    }
}

/// Ends a run whose script was evaluated: converts the value that it
/// returned and joins it with the captured output. A returned string that is
/// not valid text, function, thread or user data becomes the placeholder
/// text, and the run succeeds. An error value, or a table that cannot be
/// converted, ends the run with the error of the last stage, and its output
/// is dropped.
pub fn finish_run(value: &GuestValue, output: &OutputBuffer) -> (outcome: Outcome)
    ensures
        match returned_form(value@) {
            Ok(n) => outcome matches Outcome::Success { result, output: captured } && result@ == n
                && captured@ == output@,
            Err(detail) => outcome matches Outcome::Failure { message } && message@
                == Stage::Serialize.tag() + detail,
        },
{
    match value {
        GuestValue::Bytes(_) | GuestValue::Function | GuestValue::Thread | GuestValue::UserData => {
            Outcome::Success {
                result: NeutralValue::Text(String::from_str("<invalid utf8>")),
                output: output.contents(),
            }
        },
        _ => match to_neutral(value) {
            Ok(n) => Outcome::Success { result: n, output: output.contents() },
            Err(e) => Outcome::Failure {
                message: stage_error(Stage::Serialize, e.message().as_str()),
            },
        },
    }
}

} // verus!
