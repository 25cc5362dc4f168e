//! The conversion pass: the files of a scan are converted one after the
//! other, each into the path that mirrors it under the target root, and the
//! first failure ends the pass.
//!
//! Reading and writing workbooks happens outside this library. The caller
//! asks for the next step, carries it out, and reports how it went.

use vstd::prelude::*;
use crate::paths::{mirror_path, mirrored_path};
use crate::text::concat2;
use crate::types::texts;

verus! {

/// Why a conversion pass was given up.
#[derive(Clone, Debug, PartialEq, Eq)]
pub enum ConvertError {
    /// The file does not lie under the source root.
    Path { file: String },
    /// The file system refused an access.
    Io { message: String },
    /// The file is not a well-formed spreadsheet.
    Format { message: String },
    /// The converted workbook could not be written.
    Write { message: String },
}

/// The mathematical value of a [`ConvertError`].
pub enum ConvertErrorModel {
    Path { file: Seq<char> },
    Io { message: Seq<char> },
    Format { message: Seq<char> },
    Write { message: Seq<char> },
}

impl View for ConvertError {
    type V = ConvertErrorModel;

    open spec fn view(&self) -> ConvertErrorModel {
        match *self {
            ConvertError::Path { file } => ConvertErrorModel::Path { file: file@ },
            ConvertError::Io { message } => ConvertErrorModel::Io { message: message@ },
            ConvertError::Format { message } => ConvertErrorModel::Format { message: message@ },
            ConvertError::Write { message } => ConvertErrorModel::Write { message: message@ },
        }
    }
}

/// What a [`ConvertError`] says.
pub open spec fn convert_error_text(error: ConvertErrorModel) -> Seq<char> {
    match error {
        ConvertErrorModel::Path { file } => "Invalid path structure: "@ + file,
        ConvertErrorModel::Io { message } => message,
        ConvertErrorModel::Format { message } => message,
        ConvertErrorModel::Write { message } => message,
    }
}

impl ConvertError {
    /// The error in words.
    pub fn message(&self) -> (text: String)
        ensures
            text@ == convert_error_text(self@),
    {
        match self {
            ConvertError::Path { file } => concat2("Invalid path structure: ", file.as_str()),
            ConvertError::Io { message } => message.clone(),
            ConvertError::Format { message } => message.clone(),
            ConvertError::Write { message } => message.clone(),
        }
    }
}

/// The mathematical value of an optional [`ConvertError`].
pub open spec fn failure_model(failure: Option<ConvertError>) -> Option<ConvertErrorModel> {
    match failure {
        Some(e) => Some(e@),
        None => None,
    }
}

/// The mathematical value of what the caller reports of one conversion.
pub open spec fn report_model(report: Result<(), ConvertError>) -> Result<(), ConvertErrorModel> {
    match report {
        Ok(()) => Ok(()),
        Err(e) => Err(e@),
    }
}

/// What the caller does next.
#[derive(Clone, Debug, PartialEq, Eq)]
pub enum ConversionStep {
    /// Convert the workbook at `source` into a new workbook at `target`,
    /// creating the directories above `target` that are missing.
    Convert { source: String, target: String },
    /// Every file is converted; `outputs` are the converted files, in the
    /// order of the source files.
    Finished { outputs: Vec<String> },
    /// The pass is given up.
    Aborted { error: ConvertError },
}

/// The mathematical value of a [`ConversionStep`].
pub enum StepModel {
    Convert { source: Seq<char>, target: Seq<char> },
    Finished { outputs: Seq<Seq<char>> },
    Aborted { error: ConvertErrorModel },
}

impl View for ConversionStep {
    type V = StepModel;

    open spec fn view(&self) -> StepModel {
        match *self {
            ConversionStep::Convert { source, target } => StepModel::Convert {
                source: source@,
                target: target@,
            },
            ConversionStep::Finished { outputs } => StepModel::Finished { outputs: texts(outputs@) },
            ConversionStep::Aborted { error } => StepModel::Aborted { error: error@ },
        }
    }
}

/// The state of a conversion pass: the files to convert, the two roots, how
/// many files are converted, and the failure that ended the pass, if any.
pub struct PassModel {
    pub files: Seq<Seq<char>>,
    pub source_root: Seq<char>,
    pub target_root: Seq<char>,
    pub done: nat,
    pub failure: Option<ConvertErrorModel>,
}

impl PassModel {
    /// Whether the state is in order: no more files are converted than
    /// there are, and each converted file has a path that mirrors it.
    pub open spec fn in_order(self) -> bool {
        &&& self.done <= self.files.len()
        &&& forall|i: int|
            0 <= i < self.done ==> (#[trigger] mirrored_path(
                self.files[i],
                self.source_root,
                self.target_root,
            )) is Some
    }
}

/// The paths that mirror the first `n` files under the target root.
pub open spec fn mirrored_outputs(
    files: Seq<Seq<char>>,
    source_root: Seq<char>,
    target_root: Seq<char>,
    n: nat,
) -> Seq<Seq<char>> {
    Seq::new(n, |i: int| mirrored_path(files[i], source_root, target_root).unwrap())
}

/// The pass at its start.
pub open spec fn initial_pass(
    files: Seq<Seq<char>>,
    source_root: Seq<char>,
    target_root: Seq<char>,
) -> PassModel {
    PassModel { files, source_root, target_root, done: 0, failure: None }
}

/// What is done next in a given state. After a failure the pass is given
/// up. Where every file is converted the pass is finished. Otherwise the
/// next file in order is converted into the path that mirrors it; where it
/// has none, because it does not lie under the source root, the pass is
/// given up.
pub open spec fn step_model(s: PassModel) -> StepModel {
    if s.failure is Some {
        StepModel::Aborted { error: s.failure.unwrap() }
    } else if s.done >= s.files.len() {
        StepModel::Finished {
            outputs: mirrored_outputs(s.files, s.source_root, s.target_root, s.done),
        }
    } else {
        match mirrored_path(s.files[s.done as int], s.source_root, s.target_root) {
            Some(target) => StepModel::Convert { source: s.files[s.done as int], target },
            None => StepModel::Aborted {
                error: ConvertErrorModel::Path { file: s.files[s.done as int] },
            },
        }
    }
}

/// The state after the caller's report. Only a pass that waits for a
/// conversion takes a report: a success moves it on to the next file, a
/// failure ends it. In every other state the report changes nothing.
pub open spec fn advanced(s: PassModel, report: Result<(), ConvertErrorModel>) -> PassModel {
    if step_model(s) is Convert {
        match report {
            Ok(()) => PassModel { done: s.done + 1, ..s },
            Err(error) => PassModel { failure: Some(error), ..s },
        }
    } else {
        s
    }
}

/// A conversion pass over the files of one scan.
pub struct ConversionPass {
    files: Vec<String>,
    source_root: String,
    target_root: String,
    outputs: Vec<String>,
    failure: Option<ConvertError>,
}

impl View for ConversionPass {
    type V = PassModel;

    closed spec fn view(&self) -> PassModel {
        PassModel {
            files: texts(self.files@),
            source_root: self.source_root@,
            target_root: self.target_root@,
            done: self.outputs@.len(),
            failure: failure_model(self.failure),
        }
    }
}

impl ConversionPass {
    /// Whether the pass is in order: no more files are converted than there
    /// are, and each converted file is the mirror of its source.
    pub closed spec fn wf(&self) -> bool {
        &&& self.outputs@.len() <= self.files@.len()
        &&& forall|i: int|
            0 <= i < self.outputs@.len() ==> mirrored_path(
                (#[trigger] self.files@[i])@,
                self.source_root@,
                self.target_root@,
            ) == Some(self.outputs@[i]@)
    }

    /// A pass that is in order has a state that is in order.
    pub proof fn lemma_wf_in_order(&self)
        requires
            self.wf(),
        ensures
            self@.in_order(),
    {
        assert forall|i: int| 0 <= i < self@.done implies (#[trigger] mirrored_path(
            self@.files[i],
            self@.source_root,
            self@.target_root,
        )) is Some by {
            assert(self@.files[i] == self.files@[i]@);
        }
    }

    /// A pass over `files`, none of them converted yet.
    pub fn new(files: Vec<String>, source_root: String, target_root: String) -> (pass: Self)
        ensures
            pass.wf(),
            pass@ == initial_pass(texts(files@), source_root@, target_root@),
    {
        ConversionPass { files, source_root, target_root, outputs: Vec::new(), failure: None }
    }

    /// What the caller does next.
    pub fn next_step(&self) -> (step: ConversionStep)
        requires
            self.wf(),
        ensures
            step@ == step_model(self@),
    {
        match &self.failure {
            Some(e) => {
                return ConversionStep::Aborted { error: e.clone_error() };
            },
            None => {},
        }
        let done = self.outputs.len();
        if done >= self.files.len() {
            let outputs = self.outputs.clone();
            assert(texts(outputs@) =~= mirrored_outputs(
                self@.files,
                self@.source_root,
                self@.target_root,
                self@.done,
            )) by {
                assert(outputs@ =~= self.outputs@);
                assert forall|i: int| 0 <= i < self.outputs@.len() implies texts(outputs@)[i]
                    == mirrored_path(
                    self@.files[i],
                    self@.source_root,
                    self@.target_root,
                ).unwrap() by {
                    assert(self@.files[i] == self.files@[i]@);
                }
            }
            return ConversionStep::Finished { outputs };
        }
        let source = self.files[done].clone();
        match mirror_path(source.as_str(), self.source_root.as_str(), self.target_root.as_str()) {
            Some(target) => ConversionStep::Convert { source, target },
            None => ConversionStep::Aborted { error: ConvertError::Path { file: source } },
        }
    }

    /// Takes the caller's report of the conversion that `next_step` asked
    /// for.
    pub fn record(&mut self, report: Result<(), ConvertError>)
        requires
            old(self).wf(),
        ensures
            final(self).wf(),
            final(self)@ == advanced(old(self)@, report_model(report)),
    {
        if self.failure.is_some() {
            return ;
        }
        let done = self.outputs.len();
        if done >= self.files.len() {
            return ;
        }
        match mirror_path(
            self.files[done].as_str(),
            self.source_root.as_str(),
            self.target_root.as_str(),
        ) {
            Some(target) => {
                match report {
                    Ok(()) => {
                        self.outputs.push(target);
                    },
                    Err(error) => {
                        self.failure = Some(error);
                    },
                }
            },
            None => {},
        }
    }
}

impl ConvertError {
    /// A copy of the error.
    pub fn clone_error(&self) -> (copy: ConvertError)
        ensures
            copy@ == self@,
    {
        match self {
            ConvertError::Path { file } => ConvertError::Path { file: file.clone() },
            ConvertError::Io { message } => ConvertError::Io { message: message.clone() },
            ConvertError::Format { message } => ConvertError::Format { message: message.clone() },
            ConvertError::Write { message } => ConvertError::Write { message: message.clone() },
        }
    }
}

/// A failure ends the pass for good: from then on the next step is to give
/// up with that failure, whatever is reported.
pub proof fn lemma_failure_is_final(s: PassModel, report: Result<(), ConvertErrorModel>)
    requires
        step_model(s) is Aborted,
    ensures
        advanced(s, report) == s,
        step_model(advanced(s, report)) == step_model(s),
{
}

/// A reported failure ends the pass at once, with that failure.
pub proof fn lemma_reported_failure_aborts(s: PassModel, error: ConvertErrorModel)
    requires
        step_model(s) is Convert,
    ensures
        step_model(advanced(s, Err(error))) == (StepModel::Aborted { error }),
{
}

/// A pass that is finished has converted every file, in order, each into
/// the path that mirrors it.
pub proof fn lemma_finished_pass_mirrors_all(s: PassModel)
    requires
        s.in_order(),
        step_model(s) is Finished,
    ensures
        step_model(s)->outputs.len() == s.files.len(),
        forall|i: int|
            0 <= i < s.files.len() ==> #[trigger] step_model(s)->outputs[i] == mirrored_path(
                s.files[i],
                s.source_root,
                s.target_root,
            ).unwrap(),
{
}

} // verus!
