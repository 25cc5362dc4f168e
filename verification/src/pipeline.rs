//! The orchestrator: login, scan, conversion where mapping rules are
//! given, and the upload of every selected file.
//!
//! A [`Run`] holds the state of one run. The caller asks it for the next
//! action, carries the action out, and hands back what came of it as a
//! [`RunEvent`]. A failure of the login, of the scan, of the mapping rules
//! or of the conversion ends the run before any upload. A failed upload
//! does not: it is counted, and the run goes on with the next file.

use vstd::prelude::*;
use crate::batch::{
    action_model, cooled, initial_batch, recorded, ActionModel, BatchAction, BatchModel,
    BatchReport, ReportModel, UploadBatch,
};
use crate::cli::{
    mapping_error_text, parse_column_mappings, parsed_mappings, rule_texts, ArgsModel, CliArgs,
    MappingError, MappingErrorModel,
};
use crate::convert::{
    advanced, convert_error_text, initial_pass, mirrored_outputs, report_model, step_model,
    ConversionPass, ConversionStep, ConvertError, ConvertErrorModel, PassModel, StepModel,
};
use crate::session::{
    auth_error_text, login_outcome, login_request, login_result, login_url, login_url_text,
    AuthError, AuthErrorModel, LoginExchange, LoginExchangeModel, LoginRequest,
};
use crate::types::{texts, ColumnMapping, ScanResult};
use crate::upload::{
    authorization_value, classified, classify, upload_url, upload_url_text, ExchangeModel,
    UploadExchange,
};

verus! {

/// Why a run ended before any upload.
#[derive(Clone, Debug, PartialEq, Eq)]
pub enum RunError {
    /// The login yielded no token.
    Auth { error: AuthError },
    /// The source directory could not be walked.
    Scan { message: String },
    /// A mapping rule could not be read.
    Mapping { error: MappingError },
    /// A file could not be converted.
    Convert { error: ConvertError },
}

/// The mathematical value of a [`RunError`].
pub enum RunErrorModel {
    Auth { error: AuthErrorModel },
    Scan { message: Seq<char> },
    Mapping { error: MappingErrorModel },
    Convert { error: ConvertErrorModel },
}

impl View for RunError {
    type V = RunErrorModel;

    open spec fn view(&self) -> RunErrorModel {
        match *self {
            RunError::Auth { error } => RunErrorModel::Auth { error: error@ },
            RunError::Scan { message } => RunErrorModel::Scan { message: message@ },
            RunError::Mapping { error } => RunErrorModel::Mapping { error: error@ },
            RunError::Convert { error } => RunErrorModel::Convert { error: error@ },
        }
    }
}

/// What a [`RunError`] says: what the error that it holds says, or the
/// message of the failed scan.
pub open spec fn run_error_text(error: RunErrorModel) -> Seq<char> {
    match error {
        RunErrorModel::Auth { error } => auth_error_text(error),
        RunErrorModel::Scan { message } => message,
        RunErrorModel::Mapping { error } => mapping_error_text(error),
        RunErrorModel::Convert { error } => convert_error_text(error),
    }
}

impl RunError {
    /// The error in words.
    pub fn message(&self) -> (text: String)
        ensures
            text@ == run_error_text(self@),
    {
        match self {
            RunError::Auth { error } => error.message(),
            RunError::Scan { message } => message.clone(),
            RunError::Mapping { error } => error.message(),
            RunError::Convert { error } => error.message(),
        }
    }
}

/// What came of the last action.
#[derive(Debug, PartialEq, Eq)]
pub enum RunEvent {
    /// The login exchange ended.
    LoggedIn { exchange: LoginExchange },
    /// The source directory was walked, or walking it failed.
    Scanned { result: Result<ScanResult, String> },
    /// The conversion of one file ended.
    Converted { result: Result<(), ConvertError> },
    /// The upload of one file ended.
    Uploaded { exchange: UploadExchange },
    /// The pause is waited out.
    CooledDown,
}

/// The mathematical value of a [`RunEvent`]. Of a scan only the files
/// count.
pub enum EventModel {
    LoggedIn { exchange: LoginExchangeModel },
    Scanned { result: Result<Seq<Seq<char>>, Seq<char>> },
    Converted { result: Result<(), ConvertErrorModel> },
    Uploaded { exchange: ExchangeModel },
    CooledDown,
}

impl View for RunEvent {
    type V = EventModel;

    open spec fn view(&self) -> EventModel {
        match *self {
            RunEvent::LoggedIn { exchange } => EventModel::LoggedIn { exchange: exchange@ },
            RunEvent::Scanned { result } => EventModel::Scanned {
                result: match result {
                    Ok(scan) => Ok(texts(scan.files@)),
                    Err(message) => Err(message@),
                },
            },
            RunEvent::Converted { result } => EventModel::Converted {
                result: report_model(result),
            },
            RunEvent::Uploaded { exchange } => EventModel::Uploaded { exchange: exchange@ },
            RunEvent::CooledDown => EventModel::CooledDown,
        }
    }
}

/// What the caller does next.
#[derive(Clone, Debug, PartialEq, Eq)]
pub enum RunAction {
    /// Post `request` to `url` and report the exchange.
    Login { url: String, request: LoginRequest },
    /// Walk `directory` and report the scan.
    Scan { directory: String },
    /// Convert the workbook at `source` into a new workbook at `target`
    /// with the mapping rules `rules`.
    Convert { source: String, target: String, rules: Vec<ColumnMapping> },
    /// Post the file at `path`, the one at `index` of the batch, to `url`
    /// with the header value `authorization`, and give the attempt up
    /// after `timeout_secs` seconds.
    Upload { index: usize, path: String, url: String, authorization: String, timeout_secs: u64 },
    /// Wait for `seconds` seconds.
    CoolDown { seconds: u64 },
    /// The run is over; `report` is its result.
    Finish { report: BatchReport },
    /// The run is given up.
    Abort { error: RunError },
}

/// The mathematical value of a [`RunAction`].
pub enum RunActionModel {
    Login { url: Seq<char>, username: Seq<char>, password: Seq<char> },
    Scan { directory: Seq<char> },
    Convert { source: Seq<char>, target: Seq<char>, rules: Seq<(Seq<char>, Seq<char>)> },
    Upload {
        index: nat,
        path: Seq<char>,
        url: Seq<char>,
        authorization: Seq<char>,
        timeout_secs: u64,
    },
    CoolDown { seconds: u64 },
    Finish { report: ReportModel },
    Abort { error: RunErrorModel },
}

impl View for RunAction {
    type V = RunActionModel;

    open spec fn view(&self) -> RunActionModel {
        match *self {
            RunAction::Login { url, request } => RunActionModel::Login {
                url: url@,
                username: request.username@,
                password: request.password@,
            },
            RunAction::Scan { directory } => RunActionModel::Scan { directory: directory@ },
            RunAction::Convert { source, target, rules } => RunActionModel::Convert {
                source: source@,
                target: target@,
                rules: rule_texts(rules@),
            },
            RunAction::Upload { index, path, url, authorization, timeout_secs } => {
                RunActionModel::Upload {
                    index: index as nat,
                    path: path@,
                    url: url@,
                    authorization: authorization@,
                    timeout_secs,
                }
            },
            RunAction::CoolDown { seconds } => RunActionModel::CoolDown { seconds },
            RunAction::Finish { report } => RunActionModel::Finish { report: report@ },
            RunAction::Abort { error } => RunActionModel::Abort { error: error@ },
        }
    }
}

/// Where a run stands.
pub enum StageModel {
    /// No token yet.
    Login,
    /// Logged in; the source directory is not walked yet.
    Scan { token: Seq<char> },
    /// The files are being converted.
    Convert { token: Seq<char>, rules: Seq<(Seq<char>, Seq<char>)>, pass: PassModel },
    /// The selected files are being uploaded.
    Upload { token: Seq<char>, batch: BatchModel },
    /// The run is given up.
    Failed { error: RunErrorModel },
}

/// The state of a run: its arguments, and where it stands.
pub struct RunModel {
    pub args: ArgsModel,
    pub stage: StageModel,
}

impl StageModel {
    /// Whether the stage is in order: a conversion pass waits for the
    /// conversion of a file, and the pass or the batch is itself in order.
    pub open spec fn in_order(self) -> bool {
        match self {
            StageModel::Convert { pass, .. } => pass.in_order() && step_model(pass) is Convert,
            StageModel::Upload { batch, .. } => batch.in_order(),
            _ => true,
        }
    }
}

impl RunModel {
    /// Whether the state is in order: its stage is.
    pub open spec fn in_order(self) -> bool {
        self.stage.in_order()
    }
}

/// The run at its start.
pub open spec fn initial_run(args: ArgsModel) -> RunModel {
    RunModel { args, stage: StageModel::Login }
}

/// Where a run stands with a conversion pass in a given state: in the
/// conversion while a file waits to be converted; in the upload of the
/// converted files once the pass is finished; given up where the pass is.
pub open spec fn after_conversion_step(
    token: Seq<char>,
    rules: Seq<(Seq<char>, Seq<char>)>,
    pass: PassModel,
) -> StageModel {
    match step_model(pass) {
        StepModel::Convert { .. } => StageModel::Convert { token, rules, pass },
        StepModel::Finished { outputs } => StageModel::Upload {
            token,
            batch: initial_batch(outputs),
        },
        StepModel::Aborted { error } => StageModel::Failed {
            error: RunErrorModel::Convert { error },
        },
    }
}

/// Where a run stands after the scan. A failed scan ends it. Without
/// mapping rules the scanned files are uploaded as they are. With mapping
/// rules the rules are read, which ends the run where one of them cannot
/// be read, and the scanned files are converted from the input directory
/// into the output directory.
pub open spec fn after_scan(
    args: ArgsModel,
    token: Seq<char>,
    result: Result<Seq<Seq<char>>, Seq<char>>,
) -> StageModel {
    match result {
        Err(message) => StageModel::Failed { error: RunErrorModel::Scan { message } },
        Ok(files) => {
            if args.column_mappings.len() == 0 {
                StageModel::Upload { token, batch: initial_batch(files) }
            } else {
                match parsed_mappings(args.column_mappings) {
                    Err(error) => StageModel::Failed { error: RunErrorModel::Mapping { error } },
                    Ok(rules) => after_conversion_step(
                        token,
                        rules,
                        initial_pass(files, args.input, args.output),
                    ),
                }
            }
        },
    }
}

/// Where a run stands after an event. An event that does not answer the
/// action of the present stage changes nothing.
pub open spec fn next_stage(args: ArgsModel, stage: StageModel, event: EventModel) -> StageModel {
    match (stage, event) {
        (StageModel::Login, EventModel::LoggedIn { exchange }) => match login_outcome(exchange) {
            Ok(token) => StageModel::Scan { token },
            Err(error) => StageModel::Failed { error: RunErrorModel::Auth { error } },
        },
        (StageModel::Scan { token }, EventModel::Scanned { result }) => after_scan(
            args,
            token,
            result,
        ),
        (StageModel::Convert { token, rules, pass }, EventModel::Converted { result }) => {
            after_conversion_step(token, rules, advanced(pass, result))
        },
        (StageModel::Upload { token, batch }, EventModel::Uploaded { exchange }) => {
            match action_model(batch) {
                ActionModel::Upload { path, .. } => StageModel::Upload {
                    token,
                    batch: recorded(batch, classified(path, exchange)),
                },
                _ => stage,
            }
        },
        (StageModel::Upload { token, batch }, EventModel::CooledDown) => StageModel::Upload {
            token,
            batch: cooled(batch),
        },
        _ => stage,
    }
}

/// The state of a run after an event.
pub open spec fn advanced_run(s: RunModel, event: EventModel) -> RunModel {
    RunModel { args: s.args, stage: next_stage(s.args, s.stage, event) }
}

/// What is done next in a given state.
pub open spec fn run_action(s: RunModel) -> RunActionModel {
    match s.stage {
        StageModel::Login => RunActionModel::Login {
            url: login_url_text(s.args.server),
            username: s.args.username,
            password: s.args.password,
        },
        StageModel::Scan { .. } => RunActionModel::Scan { directory: s.args.input },
        StageModel::Convert { rules, pass, .. } => RunActionModel::Convert {
            source: step_model(pass)->source,
            target: step_model(pass)->target,
            rules,
        },
        StageModel::Upload { token, batch } => match action_model(batch) {
            ActionModel::Upload { index, path, timeout_secs } => RunActionModel::Upload {
                index,
                path,
                url: upload_url_text(s.args.server, s.args.only_valid_invention),
                authorization: "Bearer "@ + token,
                timeout_secs,
            },
            ActionModel::CoolDown { seconds } => RunActionModel::CoolDown { seconds },
            ActionModel::Finish { report } => RunActionModel::Finish { report },
        },
        StageModel::Failed { error } => RunActionModel::Abort { error },
    }
}

enum Stage {
    Login,
    Scan { token: String },
    Convert { token: String, rules: Vec<ColumnMapping>, pass: ConversionPass },
    Upload { token: String, batch: UploadBatch },
    Failed { error: RunError },
}

/// One run of the pipeline.
pub struct Run {
    args: CliArgs,
    stage: Stage,
}

impl View for Run {
    type V = RunModel;

    closed spec fn view(&self) -> RunModel {
        RunModel {
            args: self.args@,
            stage: match self.stage {
                Stage::Login => StageModel::Login,
                Stage::Scan { token } => StageModel::Scan { token: token@ },
                Stage::Convert { token, rules, pass } => StageModel::Convert {
                    token: token@,
                    rules: rule_texts(rules@),
                    pass: pass@,
                },
                Stage::Upload { token, batch } => StageModel::Upload { token: token@, batch: batch@ },
                Stage::Failed { error } => StageModel::Failed { error: error@ },
            },
        }
    }
}

fn copy_rules(rules: &Vec<ColumnMapping>) -> (copy: Vec<ColumnMapping>)
    ensures
        rule_texts(copy@) == rule_texts(rules@),
{
    let mut copy: Vec<ColumnMapping> = Vec::new();
    let mut i: usize = 0;
    while i < rules.len()
        invariant
            i <= rules.len(),
            rule_texts(copy@) == rule_texts(rules@).take(i as int),
        decreases rules.len() - i,
    {
        let ghost before = rule_texts(copy@);
        copy.push(
            ColumnMapping { original: rules[i].original.clone(), mapped: rules[i].mapped.clone() },
        );
        assert(rule_texts(copy@) =~= before.push(rule_texts(rules@)[i as int]));
        i += 1;
    }
    assert(rule_texts(rules@).take(i as int) == rule_texts(rules@));
    copy
}

fn copy_run_error(error: &RunError) -> (copy: RunError)
    ensures
        copy@ == error@,
{
    match error {
        RunError::Auth { error } => RunError::Auth {
            error: match error {
                AuthError::Transport => AuthError::Transport,
                AuthError::Status { status } => AuthError::Status { status: *status },
                AuthError::Undecodable => AuthError::Undecodable,
                AuthError::Rejected { message } => AuthError::Rejected { message: message.clone() },
            },
        },
        RunError::Scan { message } => RunError::Scan { message: message.clone() },
        RunError::Mapping { error } => RunError::Mapping {
            error: match error {
                MappingError::Malformed { token } => MappingError::Malformed {
                    token: token.clone(),
                },
                MappingError::EmptyName { token } => MappingError::EmptyName {
                    token: token.clone(),
                },
            },
        },
        RunError::Convert { error } => RunError::Convert { error: error.clone_error() },
    }
}

fn settle_conversion(token: String, rules: Vec<ColumnMapping>, pass: ConversionPass) -> (stage:
    Stage)
    requires
        pass.wf(),
    ensures
        stage_in_order(stage),
        stage_model(stage) == after_conversion_step(token@, rule_texts(rules@), pass@),
{
    proof {
        pass.lemma_wf_in_order();
    }
    match pass.next_step() {
        ConversionStep::Convert { .. } => Stage::Convert { token, rules, pass },
        ConversionStep::Finished { outputs } => Stage::Upload {
            token,
            batch: {
                let batch = UploadBatch::new(outputs);
                proof {
                    batch.lemma_wf_in_order();
                }
                batch
            },
        },
        ConversionStep::Aborted { error } => Stage::Failed { error: RunError::Convert { error } },
    }
}

spec fn stage_model(stage: Stage) -> StageModel {
    match stage {
        Stage::Login => StageModel::Login,
        Stage::Scan { token } => StageModel::Scan { token: token@ },
        Stage::Convert { token, rules, pass } => StageModel::Convert {
            token: token@,
            rules: rule_texts(rules@),
            pass: pass@,
        },
        Stage::Upload { token, batch } => StageModel::Upload { token: token@, batch: batch@ },
        Stage::Failed { error } => StageModel::Failed { error: error@ },
    }
}

spec fn stage_in_order(stage: Stage) -> bool {
    match stage {
        Stage::Convert { pass, .. } => pass.wf() && step_model(pass@) is Convert,
        Stage::Upload { batch, .. } => batch.wf(),
        _ => true,
    }
}

impl Run {
    /// Whether the run is in order.
    pub closed spec fn wf(&self) -> bool {
        stage_in_order(self.stage)
    }

    /// A run that is in order has a state that is in order.
    pub proof fn lemma_wf_in_order(&self)
        requires
            self.wf(),
        ensures
            self@.in_order(),
    {
        match self.stage {
            Stage::Convert { pass, .. } => {
                pass.lemma_wf_in_order();
            },
            Stage::Upload { batch, .. } => {
                batch.lemma_wf_in_order();
            },
            _ => {},
        }
    }

    /// A run with the given arguments, at its start.
    pub fn new(args: CliArgs) -> (run: Self)
        ensures
            run.wf(),
            run@ == initial_run(args@),
    {
        Run { args, stage: Stage::Login }
    }

    /// What the caller does next.
    pub fn next_action(&self) -> (action: RunAction)
        requires
            self.wf(),
        ensures
            action@ == run_action(self@),
    {
        match &self.stage {
            Stage::Login => RunAction::Login {
                url: login_url(self.args.server.as_str()),
                request: login_request(self.args.username.as_str(), self.args.password.as_str()),
            },
            Stage::Scan { .. } => RunAction::Scan { directory: self.args.input.clone() },
            Stage::Convert { rules, pass, .. } => {
                match pass.next_step() {
                    ConversionStep::Convert { source, target } => RunAction::Convert {
                        source,
                        target,
                        rules: copy_rules(rules),
                    },
                    ConversionStep::Finished { .. } => vstd::pervasive::unreached(),
                    ConversionStep::Aborted { .. } => vstd::pervasive::unreached(),
                }
            },
            Stage::Upload { token, batch } => {
                match batch.next_action() {
                    BatchAction::Upload { index, path, timeout_secs } => RunAction::Upload {
                        index,
                        path,
                        url: upload_url(self.args.server.as_str(), self.args.only_valid_invention),
                        authorization: authorization_value(token.as_str()),
                        timeout_secs,
                    },
                    BatchAction::CoolDown { seconds } => RunAction::CoolDown { seconds },
                    BatchAction::Finish { report } => RunAction::Finish { report },
                }
            },
            Stage::Failed { error } => RunAction::Abort { error: copy_run_error(error) },
        }
    }

    /// Takes what came of the last action and moves the run on.
    pub fn advance(self, event: RunEvent) -> (run: Self)
        requires
            self.wf(),
        ensures
            run.wf(),
            run@ == advanced_run(self@, event@),
    {
        let Run { args, stage } = self;
        let stage = match stage {
            Stage::Login => match event {
                RunEvent::LoggedIn { exchange } => match login_result(exchange) {
                    Ok(token) => Stage::Scan { token },
                    Err(error) => Stage::Failed { error: RunError::Auth { error } },
                },
                _ => Stage::Login,
            },
            Stage::Scan { token } => match event {
                RunEvent::Scanned { result } => match result {
                    Err(message) => Stage::Failed { error: RunError::Scan { message } },
                    Ok(scan) => {
                        if args.column_mappings.len() == 0 {
                            let batch = UploadBatch::new(scan.files);
                            Stage::Upload { token, batch }
                        } else {
                            match parse_column_mappings(&args.column_mappings) {
                                Err(error) => Stage::Failed { error: RunError::Mapping { error } },
                                Ok(rules) => {
                                    let pass = ConversionPass::new(
                                        scan.files,
                                        args.input.clone(),
                                        args.output.clone(),
                                    );
                                    settle_conversion(token, rules, pass)
                                },
                            }
                        }
                    },
                },
                _ => Stage::Scan { token },
            },
            Stage::Convert { token, rules, pass } => match event {
                RunEvent::Converted { result } => {
                    let mut pass = pass;
                    pass.record(result);
                    settle_conversion(token, rules, pass)
                },
                _ => Stage::Convert { token, rules, pass },
            },
            Stage::Upload { token, batch } => match event {
                RunEvent::Uploaded { exchange } => {
                    let mut batch = batch;
                    match batch.next_action() {
                        BatchAction::Upload { path, .. } => {
                            let attempt = classify(path.as_str(), exchange);
                            batch.record(&attempt);
                        },
                        _ => {},
                    }
                    Stage::Upload { token, batch }
                },
                RunEvent::CooledDown => {
                    let mut batch = batch;
                    batch.cooled_down();
                    Stage::Upload { token, batch }
                },
                _ => Stage::Upload { token, batch },
            },
            Stage::Failed { error } => Stage::Failed { error },
        };
        Run { args, stage }
    }
}

/// A run that is given up stays given up: no event moves it, and the only
/// action left is to give up with the same error. So nothing is scanned,
/// converted or uploaded after a failed login, scan or conversion.
pub proof fn lemma_failed_run_stays_failed(s: RunModel, event: EventModel)
    requires
        s.stage is Failed,
    ensures
        advanced_run(s, event) == s,
        run_action(s) == (RunActionModel::Abort { error: s.stage->Failed_error }),
{
}

/// No upload ends a run: once the uploads have begun, the run stays with
/// them, and in order, whatever comes of any of them.
pub proof fn lemma_uploads_never_abort(s: RunModel, event: EventModel)
    requires
        s.in_order(),
        s.stage is Upload,
    ensures
        advanced_run(s, event).stage is Upload,
        advanced_run(s, event).in_order(),
        advanced_run(s, event).stage->Upload_token == s.stage->Upload_token,
{
}

/// Every state that a run in order reaches is in order.
pub proof fn lemma_run_stays_in_order(s: RunModel, event: EventModel)
    requires
        s.in_order(),
    ensures
        advanced_run(s, event).in_order(),
{
    match (s.stage, event) {
        (StageModel::Scan { token }, EventModel::Scanned { result }) => {
            if let Ok(files) = result {
                if s.args.column_mappings.len() > 0 {
                    if let Ok(rules) = parsed_mappings(s.args.column_mappings) {
                        let pass = initial_pass(files, s.args.input, s.args.output);
                        lemma_settled_in_order(token, rules, pass);
                    }
                }
            }
        },
        (StageModel::Convert { token, rules, pass }, EventModel::Converted { result }) => {
            lemma_settled_in_order(token, rules, advanced(pass, result));
        },
        _ => {},
    }
}

/// The stage that follows a conversion step is in order where the pass is.
proof fn lemma_settled_in_order(
    token: Seq<char>,
    rules: Seq<(Seq<char>, Seq<char>)>,
    pass: PassModel,
)
    requires
        pass.in_order(),
    ensures
        after_conversion_step(token, rules, pass).in_order(),
{
}

/// An upload is only ever asked for with the token of the login in its
/// header, and only for the file that is next in the batch.
pub proof fn lemma_upload_carries_token(s: RunModel)
    requires
        run_action(s) is Upload,
    ensures
        s.stage is Upload,
        run_action(s)->Upload_authorization == "Bearer "@ + s.stage->Upload_token,
        run_action(s)->Upload_url == upload_url_text(s.args.server, s.args.only_valid_invention),
        run_action(s)->Upload_index == s.stage->Upload_batch.attempted(),
{
}

/// Without mapping rules the scanned files are the batch, unchanged and in
/// scan order.
pub proof fn lemma_raw_files_pass_through(
    args: ArgsModel,
    token: Seq<char>,
    files: Seq<Seq<char>>,
)
    requires
        args.column_mappings.len() == 0,
    ensures
        after_scan(args, token, Ok(files)) == (StageModel::Upload {
            token,
            batch: initial_batch(files),
        }),
{
}

/// With mapping rules the uploads begin only when every scanned file is
/// converted, and the batch is made of the converted files: one for each
/// scanned file, in scan order, at the path that mirrors it.
pub proof fn lemma_converted_files_are_uploaded(
    token: Seq<char>,
    rules: Seq<(Seq<char>, Seq<char>)>,
    pass: PassModel,
)
    requires
        pass.in_order(),
        after_conversion_step(token, rules, pass) is Upload,
    ensures
        pass.done == pass.files.len(),
        after_conversion_step(token, rules, pass)->Upload_batch == initial_batch(
            mirrored_outputs(pass.files, pass.source_root, pass.target_root, pass.files.len()),
        ),
        after_conversion_step(token, rules, pass)->Upload_batch.files.len() == pass.files.len(),
{
}

/// A run ends with a report only from the uploads, and the report counts
/// every file of the batch once, as a success or as a failure.
pub proof fn lemma_finished_run_counts_every_file(s: RunModel)
    requires
        s.in_order(),
        run_action(s) is Finish,
    ensures
        s.stage is Upload,
        run_action(s)->Finish_report == s.stage->Upload_batch.report,
        run_action(s)->Finish_report.success_count + run_action(s)->Finish_report.fail_count
            == s.stage->Upload_batch.files.len(),
{
}

} // verus!
