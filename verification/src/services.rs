//! The dictation pipeline's decisions: how text is shaped for delivery,
//! whether and where it is pasted, and what the state shows after each
//! step. Recording, transcription and pasting themselves are done by the
//! caller, which hands their outcomes back here.
use crate::sensevoice::{format_probe_summary, probe_summary_spec, SenseVoiceProbe, SenseVoiceTranscript};
use crate::qwen_asr::{
    authorization_spec, config_problem, endpoint_spec, plan_session, QwenAsrConfig,
    QwenAsrTranscript, QwenSession,
};
use crate::state::{DeliveryTarget, InputMode, InputState, ModelProvider, NativeAppState};
use crate::text::{chars_of, decimal, decimal_spec, normalize_spec, normalize_text, trim, trim_spec};
use vstd::prelude::*;
use vstd::string::StringExecFns;

verus! {

broadcast use vstd::string::group_string_axioms;

// ----------------------------------------------------------- prompt shape

pub open spec fn code_edit_head() -> Seq<char> {
    "请基于当前项目和代码上下文完成以下修改:\n- 需求: "@
}

pub open spec fn code_edit_tail() -> Seq<char> {
    "\n- 先理解现有实现和相关依赖关系\n- 优先做最小必要改动，不要无关重构\n- 保持原有代码风格和命名习惯\n- 修改后说明改了哪些文件、做了什么"@
}

/// The text delivered for `input` in `mode`.
pub open spec fn transform_spec(mode: InputMode, input: Seq<char>) -> Seq<char> {
    match mode {
        InputMode::CodeEdit => code_edit_head() + input + code_edit_tail(),
        InputMode::DirectPrompt => input,
    }
}

/// Shapes recognised text for delivery: unchanged in `DirectPrompt` mode,
/// wrapped into a code-change request in `CodeEdit` mode.
pub fn transform_text(mode: InputMode, input: &str) -> (r: String)
    ensures
        r@ == transform_spec(mode, input@),
{
    match mode {
        InputMode::CodeEdit => {
            let mut r = String::from_str("请基于当前项目和代码上下文完成以下修改:\n- 需求: ");
            r.append(input);
            r.append(
                "\n- 先理解现有实现和相关依赖关系\n- 优先做最小必要改动，不要无关重构\n- 保持原有代码风格和命名习惯\n- 修改后说明改了哪些文件、做了什么",
            );
            r
        },
        InputMode::DirectPrompt => String::from_str(input),
    }
}

pub open spec fn editor_code_edit_head() -> Seq<char> {
    "请基于当前代码上下文执行以下修改:\n- 需求: "@
}

pub open spec fn editor_code_edit_tail() -> Seq<char> {
    "\n- 先理解现有实现\n- 保持改动范围尽量小\n- 给出必要的关键说明"@
}

/// The delivered text that the result editor derives for `input` in `mode`.
pub open spec fn editor_transform_spec(mode: InputMode, input: Seq<char>) -> Seq<char> {
    match mode {
        InputMode::CodeEdit => editor_code_edit_head() + input + editor_code_edit_tail(),
        InputMode::DirectPrompt => input,
    }
}

/// Shapes the result editor's text after the user edits it: unchanged in
/// `DirectPrompt` mode, wrapped into the editor's shorter code-change
/// request in `CodeEdit` mode.
pub fn editor_transform_text(mode: InputMode, input: &str) -> (r: String)
    ensures
        r@ == editor_transform_spec(mode, input@),
{
    match mode {
        InputMode::CodeEdit => {
            let mut r = String::from_str("请基于当前代码上下文执行以下修改:\n- 需求: ");
            r.append(input);
            r.append("\n- 先理解现有实现\n- 保持改动范围尽量小\n- 给出必要的关键说明");
            r
        },
        InputMode::DirectPrompt => String::from_str(input),
    }
}

// ---------------------------------------------------------------- delivery

/// The settings that the pipeline reads once recording has stopped.
pub struct FinishInputSnapshot {
    pub input_mode: InputMode,
    pub delivery_target: DeliveryTarget,
    pub auto_paste: bool,
    pub model_provider: ModelProvider,
    pub local_model_dir: String,
    pub local_model_ready: bool,
    pub local_model_status: String,
    pub local_model_summary: String,
    pub qwen: QwenAsrConfig,
}

impl FinishInputSnapshot {
    /// Whether the snapshot holds the settings of `state`.
    pub open spec fn holds_settings_of(self, state: NativeAppState) -> bool {
        &&& self.input_mode == state.input_mode
        &&& self.delivery_target == state.delivery_target
        &&& self.auto_paste == state.auto_paste
        &&& self.model_provider == state.model_provider
        &&& self.local_model_dir@ == state.local_model_dir@
        &&& self.local_model_ready == state.local_model_ready
        &&& self.local_model_status@ == state.local_model_status@
        &&& self.local_model_summary@ == state.local_model_summary@
        &&& self.qwen.api_key@ == state.qwen_api_key@
        &&& self.qwen.model@ == state.qwen_model@
        &&& self.qwen.url@ == state.qwen_url@
        &&& self.qwen.language@ == state.qwen_language@
    }

    /// The current settings of `state`.
    pub fn of_state(state: &NativeAppState) -> (s: FinishInputSnapshot)
        ensures
            s.holds_settings_of(*state),
    {
        FinishInputSnapshot {
            input_mode: state.input_mode,
            delivery_target: state.delivery_target,
            auto_paste: state.auto_paste,
            model_provider: state.model_provider,
            local_model_dir: state.local_model_dir.clone(),
            local_model_ready: state.local_model_ready,
            local_model_status: state.local_model_status.clone(),
            local_model_summary: state.local_model_summary.clone(),
            qwen: QwenAsrConfig {
                api_key: state.qwen_api_key.clone(),
                model: state.qwen_model.clone(),
                url: state.qwen_url.clone(),
                language: state.qwen_language.clone(),
            },
        }
    }
}

/// What delivering a text amounts to.
pub enum DeliveryPlan {
    /// The text is empty: nothing is pasted.
    NothingToSend,
    /// Automatic pasting is switched off: nothing is pasted.
    AutoPasteOff,
    /// Hide the overlay, put `text` on the clipboard, refocus the window that
    /// was active when recording started and press the paste shortcut.
    Paste { text: String, target: DeliveryTarget },
}

pub open spec fn nothing_to_send_message() -> Seq<char> {
    "没有可投送的文本。"@
}

pub open spec fn auto_paste_off_message() -> Seq<char> {
    "已生成投送文本，但自动粘贴已关闭。"@
}

/// The report after a successful paste into `target`.
pub open spec fn pasted_message(target: DeliveryTarget) -> Seq<char> {
    match target {
        DeliveryTarget::GenericInput => "已复制到剪贴板，并尝试粘贴到当前输入框。"@,
        _ => "已复制到剪贴板，并尝试粘贴到 "@ + target.label_spec() + "。"@,
    }
}

/// How `text` is delivered with the given settings.
pub fn deliver_output_from_snapshot(snapshot: &FinishInputSnapshot, text: &str) -> (p: DeliveryPlan)
    ensures
        text@.len() == 0 ==> p is NothingToSend,
        text@.len() > 0 && !snapshot.auto_paste ==> p is AutoPasteOff,
        text@.len() > 0 && snapshot.auto_paste ==> (p matches DeliveryPlan::Paste { text: t, target }
            && t@ == text@ && target == snapshot.delivery_target),
{
    if text.is_empty() {
        DeliveryPlan::NothingToSend
    } else if !snapshot.auto_paste {
        DeliveryPlan::AutoPasteOff
    } else {
        DeliveryPlan::Paste { text: String::from_str(text), target: snapshot.delivery_target }
    }
}

impl DeliveryPlan {
    /// The report of a delivery, given how the paste went.
    pub open spec fn report_spec(&self, outcome: Result<(), String>) -> Result<Seq<char>, Seq<char>> {
        match self {
            DeliveryPlan::NothingToSend => Ok(nothing_to_send_message()),
            DeliveryPlan::AutoPasteOff => Ok(auto_paste_off_message()),
            DeliveryPlan::Paste { target, .. } => match outcome {
                Ok(_) => Ok(pasted_message(*target)),
                Err(e) => Err(e@),
            },
        }
    }

    /// Whether carrying out the plan needs the clipboard and a paste.
    pub fn needs_paste(&self) -> (b: bool)
        ensures
            b == self is Paste,
    {
        match self {
            DeliveryPlan::Paste { .. } => true,
            _ => false,
        }
    }

    /// The report of a delivery, given how the paste went (`outcome` is not
    /// read when nothing had to be pasted).
    pub fn report(&self, outcome: Result<(), String>) -> (r: Result<String, String>)
        ensures
            self is NothingToSend ==> r is Ok && r->Ok_0@ == nothing_to_send_message(),
            self is AutoPasteOff ==> r is Ok && r->Ok_0@ == auto_paste_off_message(),
            self matches DeliveryPlan::Paste { target, .. } ==> match outcome {
                Ok(_) => r is Ok && r->Ok_0@ == pasted_message(*target),
                Err(e) => r is Err && r->Err_0@ == e@,
            },
    {
        match self {
            DeliveryPlan::NothingToSend => Ok(String::from_str("没有可投送的文本。")),
            DeliveryPlan::AutoPasteOff => Ok(String::from_str("已生成投送文本，但自动粘贴已关闭。")),
            DeliveryPlan::Paste { target, .. } => match outcome {
                Ok(()) => match target {
                    DeliveryTarget::GenericInput => Ok(
                        String::from_str("已复制到剪贴板，并尝试粘贴到当前输入框。"),
                    ),
                    _ => {
                        let mut m = String::from_str("已复制到剪贴板，并尝试粘贴到 ");
                        m.append(target.label());
                        m.append("。");
                        Ok(m)
                    },
                },
                Err(e) => Err(e),
            },
        }
    }
}

// ---------------------------------------------------------- practice flow

pub open spec fn practice_status_message() -> Seq<char> {
    "正在演练原生输入法链路..."@
}

/// What starting a practice run makes of the state `old`: `Processing`,
/// the raw text is the normalised practice text and the delivered text its
/// shaped form; every other field is kept.
pub open spec fn practice_started(old: NativeAppState, new: NativeAppState) -> bool {
    &&& new.input_state == InputState::Processing
    &&& new.status_message@ == practice_status_message()
    &&& new.raw_text@ == normalize_spec(old.practice_text@)
    &&& new.delivered_text@ == transform_spec(old.input_mode, normalize_spec(old.practice_text@))
    &&& new.practice_text@ == old.practice_text@
    &&& new.last_recording_info@ == old.last_recording_info@
    &&& new.same_shortcut(old)
    &&& new.same_settings(old)
    &&& new.same_model_facts(old)
}

/// How a started practice run in state `s` delivers its (trimmed) text.
pub open spec fn practice_plan(s: NativeAppState, p: DeliveryPlan) -> bool {
    &&& trim_spec(s.delivered_text@).len() == 0 ==> p is NothingToSend
    &&& trim_spec(s.delivered_text@).len() > 0 && !s.auto_paste ==> p is AutoPasteOff
    &&& trim_spec(s.delivered_text@).len() > 0 && s.auto_paste ==> (p matches DeliveryPlan::Paste {
        text,
        target,
    } && text@ == trim_spec(s.delivered_text@) && target == s.delivery_target)
}

/// Starts a practice run on the state's practice text (see
/// `practice_started`) and returns how the delivered text (trimmed) is to
/// be delivered; `finish_practice_flow` completes the run.
pub fn run_practice_flow(state: &mut NativeAppState) -> (p: DeliveryPlan)
    ensures
        practice_started(*old(state), *final(state)),
        practice_plan(*final(state), p),
{
    state.input_state = InputState::Processing;
    state.status_message = String::from_str("正在演练原生输入法链路...");
    state.raw_text = normalize_text(state.practice_text.as_str());
    state.delivered_text = transform_text(state.input_mode, state.raw_text.as_str());
    let snapshot = FinishInputSnapshot::of_state(state);
    let text = trim(state.delivered_text.as_str());
    deliver_output_from_snapshot(&snapshot, text.as_str())
}

pub open spec fn practice_done_message(target: DeliveryTarget, report: Seq<char>) -> Seq<char> {
    "原生输入法演练已完成，目标为 "@ + target.label_spec() + "。"@ + report
}

/// The report of a practice run's delivery, given how the paste went.
pub open spec fn practice_report(plan: DeliveryPlan, outcome: Result<(), String>) -> Seq<char> {
    match plan {
        DeliveryPlan::NothingToSend => nothing_to_send_message(),
        DeliveryPlan::AutoPasteOff => auto_paste_off_message(),
        DeliveryPlan::Paste { target, .. } => match outcome {
            Ok(_) => pasted_message(target),
            Err(e) => "投送失败: "@ + e@,
        },
    }
}

/// What completing a practice run makes of the state `old`: `Success`
/// with the report of the delivery; every other field is kept.
pub open spec fn practice_finished(
    old: NativeAppState,
    new: NativeAppState,
    plan: DeliveryPlan,
    outcome: Result<(), String>,
) -> bool {
    &&& new.input_state == InputState::Success
    &&& new.status_message@ == practice_done_message(
        old.delivery_target,
        practice_report(plan, outcome),
    )
    &&& new.raw_text@ == old.raw_text@
    &&& new.delivered_text@ == old.delivered_text@
    &&& new.practice_text@ == old.practice_text@
    &&& new.last_recording_info@ == old.last_recording_info@
    &&& new.same_shortcut(old)
    &&& new.same_settings(old)
    &&& new.same_model_facts(old)
}

/// Completes a practice run once the delivery of `plan` has been attempted:
/// the state shows `Success` and reports the delivery, or why it failed.
pub fn finish_practice_flow(
    state: &mut NativeAppState,
    plan: &DeliveryPlan,
    outcome: Result<(), String>,
) -> (failed: bool)
    ensures
        failed == (plan is Paste && outcome is Err),
        practice_finished(*old(state), *final(state), *plan, outcome),
{
    let mut failed = false;
    let report = match plan.report(outcome) {
        Ok(m) => m,
        Err(e) => {
            failed = true;
            let mut m = String::from_str("投送失败: ");
            m.append(e.as_str());
            m
        },
    };
    let mut status = String::from_str("原生输入法演练已完成，目标为 ");
    status.append(state.delivery_target.label());
    status.append("。");
    status.append(report.as_str());
    state.input_state = InputState::Success;
    state.status_message = status;
    failed
}

/// A practice run that pastes nothing (automatic pasting is off, or the
/// shaped text is blank) can be repeated: a second run, started and
/// completed the same way, pastes nothing either and leaves the state as
/// the first run left it.
pub proof fn law_practice_run_repeatable(
    a: NativeAppState,
    b: NativeAppState,
    p1: DeliveryPlan,
    o1: Result<(), String>,
    c: NativeAppState,
    d: NativeAppState,
    p2: DeliveryPlan,
    o2: Result<(), String>,
    e: NativeAppState,
)
    requires
        !a.auto_paste || trim_spec(
            transform_spec(a.input_mode, normalize_spec(a.practice_text@)),
        ).len() == 0,
        practice_started(a, b),
        practice_plan(b, p1),
        practice_finished(b, c, p1, o1),
        practice_started(c, d),
        practice_plan(d, p2),
        practice_finished(d, e, p2, o2),
    ensures
        !(p1 is Paste),
        !(p2 is Paste),
        e.same_state(c),
{
}

pub open spec fn nothing_to_send_toast() -> Seq<char> {
    "当前没有可发送的识别文本。"@
}

/// Sends the text in the result editor: refused when it is blank;
/// otherwise it becomes the practice text and a practice run starts on it
/// (see `run_practice_flow`).
pub fn prepare_send(state: &mut NativeAppState) -> (r: Result<DeliveryPlan, String>)
    ensures
        trim_spec(old(state).raw_text@).len() == 0 ==> r is Err && r->Err_0@
            == nothing_to_send_toast() && *final(state) == *old(state),
        trim_spec(old(state).raw_text@).len() > 0 ==> r is Ok && final(state).practice_text@
            == old(state).raw_text@ && final(state).input_state == InputState::Processing
            && final(state).raw_text@ == normalize_spec(old(state).raw_text@)
            && final(state).delivered_text@ == transform_spec(
            old(state).input_mode,
            normalize_spec(old(state).raw_text@),
        ),
        trim_spec(old(state).raw_text@).len() > 0 ==> final(state).status_message@ == practice_status_message() && final(state).last_recording_info@ == old(state).last_recording_info@ && final(state).same_shortcut(*old(state)) && final(state).same_settings(*old(state)) && final(state).same_model_facts(*old(state)),
        r matches Ok(p) ==> practice_plan(*final(state), p),
{
    if crate::text::is_blank(state.raw_text.as_str()) {
        return Err(String::from_str("当前没有可发送的识别文本。"));
    }
    state.practice_text = state.raw_text.clone();
    Ok(run_practice_flow(state))
}

pub open spec fn nothing_to_copy_toast() -> Seq<char> {
    "当前没有可复制的识别文本。"@
}

/// The text the copy button puts on the clipboard: the result editor's text
/// trimmed; refused when that is empty.
pub fn visible_text_for_copy(state: &NativeAppState) -> (r: Result<String, String>)
    ensures
        trim_spec(state.raw_text@).len() == 0 ==> r is Err && r->Err_0@ == nothing_to_copy_toast(),
        trim_spec(state.raw_text@).len() > 0 ==> (r matches Ok(t) && t@ == trim_spec(
            state.raw_text@,
        )),
{
    let t = trim(state.raw_text.as_str());
    if t.as_str().is_empty() {
        Err(String::from_str("当前没有可复制的识别文本。"))
    } else {
        Ok(t)
    }
}

/// Re-derives the delivered text from the result editor's text (after the
/// user edits it, switches automatic pasting or finishes an action), with
/// the editor's template.
pub fn sync_hidden_delivery_text(state: &mut NativeAppState)
    ensures
        final(state).delivered_text@ == editor_transform_spec(
            old(state).input_mode,
            old(state).raw_text@,
        ),
        final(state).input_state == old(state).input_state,
        final(state).status_message@ == old(state).status_message@,
        final(state).raw_text@ == old(state).raw_text@,
        final(state).practice_text@ == old(state).practice_text@,
        final(state).last_recording_info@ == old(state).last_recording_info@,
        final(state).same_shortcut(*old(state)),
        final(state).same_settings(*old(state)),
        final(state).same_model_facts(*old(state)),
{
    state.delivered_text = editor_transform_text(state.input_mode, state.raw_text.as_str());
}

/// Records that the global shortcut fired.
pub fn note_hotkey_triggered(state: &mut NativeAppState)
    ensures
        final(state).status_message@ == "检测到全局快捷键 `"@ + old(state).shortcut@ + "`。"@,
        final(state).input_state == old(state).input_state,
        final(state).shortcut@ == old(state).shortcut@,
        final(state).raw_text@ == old(state).raw_text@,
        final(state).delivered_text@ == old(state).delivered_text@,
        final(state).practice_text@ == old(state).practice_text@,
        final(state).last_recording_info@ == old(state).last_recording_info@,
        final(state).same_shortcut(*old(state)),
        final(state).same_settings(*old(state)),
        final(state).same_model_facts(*old(state)),
{
    let mut m = String::from_str("检测到全局快捷键 `");
    m.append(state.shortcut.as_str());
    m.append("`。");
    state.status_message = m;
}

/// Appends a start-up failure (such as the tray or the overlay failing to
/// start) to the status message: the old message, a space, what failed,
/// `失败: ` and the error.
pub fn note_startup_failure(state: &mut NativeAppState, what: &str, error: &str)
    ensures
        final(state).status_message@ == old(state).status_message@ + " "@ + what@ + "失败: "@
            + error@,
        final(state).input_state == old(state).input_state,
        final(state).raw_text@ == old(state).raw_text@,
        final(state).delivered_text@ == old(state).delivered_text@,
        final(state).practice_text@ == old(state).practice_text@,
        final(state).last_recording_info@ == old(state).last_recording_info@,
        final(state).same_shortcut(*old(state)),
        final(state).same_settings(*old(state)),
        final(state).same_model_facts(*old(state)),
{
    let mut m = state.status_message.clone();
    m.append(" ");
    m.append(what);
    m.append("失败: ");
    m.append(error);
    state.status_message = m;
}

/// The description of a recording that has started.
pub fn recording_started_info(device_name: &str, sample_rate: u32, channels: u16) -> (r: String)
    ensures
        r@ == "正在使用默认麦克风 `"@ + device_name@ + "` 录音，输入配置为 "@ + decimal_spec(
            sample_rate as nat,
        ) + " Hz / "@ + decimal_spec(channels as nat) + " 通道。"@,
{
    let mut m = String::from_str("正在使用默认麦克风 `");
    m.append(device_name);
    m.append("` 录音，输入配置为 ");
    m.append(decimal(sample_rate as u64).as_str());
    m.append(" Hz / ");
    m.append(decimal(channels as u64).as_str());
    m.append(" 通道。");
    m
}

// ------------------------------------------------------------ recording

pub open spec fn recording_started_message() -> Seq<char> {
    "已经开始真实录音。说完后再次按快捷键或点“结束并发送”即可完成。"@
}

pub open spec fn recording_not_started_info() -> Seq<char> {
    "录音没有启动。"@
}

/// Empties the result editor: the recognised and the delivered text.
pub fn clear_result(state: &mut NativeAppState)
    ensures
        final(state).raw_text@ == Seq::<char>::empty(),
        final(state).delivered_text@ == Seq::<char>::empty(),
        final(state).input_state == old(state).input_state,
        final(state).status_message@ == old(state).status_message@,
        final(state).practice_text@ == old(state).practice_text@,
        final(state).last_recording_info@ == old(state).last_recording_info@,
        final(state).same_shortcut(*old(state)),
        final(state).same_settings(*old(state)),
        final(state).same_model_facts(*old(state)),
{
    state.raw_text = String::new();
    state.delivered_text = String::new();
}

/// What the record button and the global shortcut do.
#[derive(Debug, Clone, Copy, PartialEq, Eq, Structural)]
pub enum RecordAction {
    /// Start a dictation (`begin_input`).
    Begin,
    /// Finish the running dictation (`begin_finish_input`).
    Finish,
}

/// The record button and the global shortcut finish a running recording
/// and start one otherwise.
pub fn record_action(state: &NativeAppState) -> (a: RecordAction)
    ensures
        a == RecordAction::Finish <==> state.input_state == InputState::Recording,
{
    if state.input_state == InputState::Recording {
        RecordAction::Finish
    } else {
        RecordAction::Begin
    }
}

/// Records the start of a dictation. `started` is the outcome of opening the
/// microphone (its description, or the error); `overlay` is the outcome of
/// showing the recording overlay, which is only attempted, and only read,
/// when recording started.
pub fn begin_input(
    state: &mut NativeAppState,
    started: Result<String, String>,
    overlay: Result<(), String>,
)
    ensures
        match started {
            Ok(info) => {
                &&& final(state).input_state == InputState::Recording
                &&& final(state).last_recording_info@ == info@
                &&& match overlay {
                    Ok(_) => final(state).status_message@ == recording_started_message(),
                    Err(e) => final(state).status_message@ == "录音已开始，但浮层启动失败: "@
                        + e@,
                }
            },
            Err(e) => {
                &&& final(state).input_state == InputState::Error
                &&& final(state).status_message@ == "启动录音失败: "@ + e@
                &&& final(state).last_recording_info@ == recording_not_started_info()
            },
        },
        final(state).raw_text@ == old(state).raw_text@,
        final(state).delivered_text@ == old(state).delivered_text@,
        final(state).local_model_ready == old(state).local_model_ready,
        final(state).practice_text@ == old(state).practice_text@,
        final(state).same_shortcut(*old(state)),
        final(state).same_settings(*old(state)),
        final(state).same_model_facts(*old(state)),
{
    match started {
        Ok(info) => {
            state.input_state = InputState::Recording;
            state.last_recording_info = info;
            match overlay {
                Err(e) => {
                    let mut m = String::from_str("录音已开始，但浮层启动失败: ");
                    m.append(e.as_str());
                    state.status_message = m;
                },
                Ok(()) => {
                    state.status_message = String::from_str(
                        "已经开始真实录音。说完后再次按快捷键或点“结束并发送”即可完成。",
                    );
                },
            }
        },
        Err(e) => {
            state.input_state = InputState::Error;
            let mut m = String::from_str("启动录音失败: ");
            m.append(e.as_str());
            state.status_message = m;
            state.last_recording_info = String::from_str("录音没有启动。");
        },
    }
}

pub open spec fn not_recording_message() -> Seq<char> {
    "当前没有正在进行的口述。"@
}

/// Name of the recogniser that `provider` selects.
pub open spec fn recogniser_name(provider: ModelProvider) -> Seq<char> {
    match provider {
        ModelProvider::Local => "SenseVoice"@,
        ModelProvider::OnlineQwen => "Qwen-ASR"@,
    }
}

pub open spec fn stopping_message(provider: ModelProvider) -> Seq<char> {
    "正在停止录音并送入 "@ + recogniser_name(provider) + "..."@
}

/// Name of the recogniser that `provider` selects.
pub fn recogniser_label(provider: ModelProvider) -> (r: &'static str)
    ensures
        r@ == recogniser_name(provider),
{
    match provider {
        ModelProvider::Local => "SenseVoice",
        ModelProvider::OnlineQwen => "Qwen-ASR",
    }
}

/// Starts finishing a dictation: refused unless a recording is running;
/// otherwise the state shows `Processing` and the current settings are
/// returned for the rest of the pipeline.
pub fn begin_finish_input(state: &mut NativeAppState) -> (r: Result<FinishInputSnapshot, String>)
    ensures
        old(state).input_state != InputState::Recording ==> r is Err && r->Err_0@
            == not_recording_message() && *final(state) == *old(state),
        old(state).input_state == InputState::Recording ==> r is Ok && final(state).input_state
            == InputState::Processing && final(state).status_message@ == stopping_message(
            old(state).model_provider,
        ) && r->Ok_0.holds_settings_of(*old(state)),
        final(state).raw_text@ == old(state).raw_text@,
        final(state).last_recording_info@ == old(state).last_recording_info@,
        final(state).delivered_text@ == old(state).delivered_text@,
        final(state).practice_text@ == old(state).practice_text@,
        final(state).same_shortcut(*old(state)),
        final(state).same_settings(*old(state)),
        final(state).same_model_facts(*old(state)),
{
    if state.input_state != InputState::Recording {
        return Err(String::from_str("当前没有正在进行的口述。"));
    }
    state.input_state = InputState::Processing;
    let mut m = String::from_str("正在停止录音并送入 ");
    m.append(recogniser_label(state.model_provider));
    m.append("...");
    state.status_message = m;
    Ok(FinishInputSnapshot::of_state(state))
}

/// Ends a dictation whose recording could not be finished (the recording
/// could not be stopped, or it was empty): the state shows `Error` with
/// `message`.
pub fn finish_input_refused(state: &mut NativeAppState, message: String)
    ensures
        final(state).input_state == InputState::Error,
        final(state).status_message@ == message@,
        final(state).raw_text@ == old(state).raw_text@,
        final(state).delivered_text@ == old(state).delivered_text@,
        final(state).last_recording_info@ == old(state).last_recording_info@,
        final(state).practice_text@ == old(state).practice_text@,
        final(state).same_shortcut(*old(state)),
        final(state).same_settings(*old(state)),
        final(state).same_model_facts(*old(state)),
{
    state.input_state = InputState::Error;
    state.status_message = message;
}

pub open spec fn empty_audio_message() -> Seq<char> {
    "录到的音频为空，请再试一次。"@
}

/// Takes in the description of the stopped recording and the number of
/// samples left after resampling; an empty recording is refused.
pub fn accept_capture(state: &mut NativeAppState, info: &str, sample_count: usize) -> (r: Result<
    (),
    String,
>)
    ensures
        final(state).last_recording_info@ == info@,
        sample_count == 0 <==> r is Err,
        r is Err ==> r->Err_0@ == empty_audio_message(),
        final(state).input_state == old(state).input_state,
        final(state).status_message@ == old(state).status_message@,
        final(state).raw_text@ == old(state).raw_text@,
        final(state).delivered_text@ == old(state).delivered_text@,
        final(state).practice_text@ == old(state).practice_text@,
        final(state).same_shortcut(*old(state)),
        final(state).same_settings(*old(state)),
        final(state).same_model_facts(*old(state)),
{
    state.last_recording_info = String::from_str(info);
    if sample_count == 0 {
        Err(String::from_str("录到的音频为空，请再试一次。"))
    } else {
        Ok(())
    }
}

// ---------------------------------------------------------- model check

pub open spec fn model_loadable_status() -> Seq<char> {
    "SenseVoice 已可被 Rust provider 加载。下一步只差真实录音链路。"@
}

pub open spec fn model_check_passed_message() -> Seq<char> {
    "SenseVoice 本地模型检查通过，已生成兼容词表并完成加载探测。"@
}

pub open spec fn model_requirements_summary() -> Seq<char> {
    "当前目录至少要有 `model.onnx`、`config.yaml`、`tokens.json`。如果已经齐全但仍失败，通常说明这个 ONNX 缺少 `transcribe-rs` 需要的 metadata，需要转换成 sherpa 兼容版本，或后续改走 FunASR runtime。"@
}

pub open spec fn model_unavailable_message() -> Seq<char> {
    "SenseVoice 本地模型暂时不可用，请先看下方错误信息。"@
}

/// Records the outcome of probing the configured model directory.
pub fn check_local_model(state: &mut NativeAppState, probe: Result<SenseVoiceProbe, String>)
    ensures
        match probe {
            Ok(p) => {
                &&& final(state).local_model_ready
                &&& final(state).local_model_status@ == model_loadable_status()
                &&& final(state).local_model_summary@ == probe_summary_spec(
                    p.model_dir@,
                    p.model_file@,
                    p.source_format@,
                    p.tokens_txt_file@,
                    p.tokens_count as nat,
                    p.load_strategy@,
                )
                &&& final(state).status_message@ == model_check_passed_message()
                &&& final(state).input_state == old(state).input_state
            },
            Err(e) => {
                &&& !final(state).local_model_ready
                &&& final(state).local_model_status@ == "SenseVoice 检查失败: "@ + e@
                &&& final(state).local_model_summary@ == model_requirements_summary()
                &&& final(state).input_state == InputState::Error
                &&& final(state).status_message@ == model_unavailable_message()
            },
        },
        final(state).local_model_dir@ == old(state).local_model_dir@,
        final(state).raw_text@ == old(state).raw_text@,
        final(state).delivered_text@ == old(state).delivered_text@,
        final(state).practice_text@ == old(state).practice_text@,
        final(state).last_recording_info@ == old(state).last_recording_info@,
        final(state).same_shortcut(*old(state)),
        final(state).same_settings(*old(state)),
{
    state.local_model_ready = false;
    state.status_message = String::from_str("正在检查 SenseVoice 本地模型...");
    match probe {
        Ok(p) => {
            state.local_model_ready = true;
            state.local_model_status = String::from_str(
                "SenseVoice 已可被 Rust provider 加载。下一步只差真实录音链路。",
            );
            state.local_model_summary = format_probe_summary(&p);
            state.status_message = String::from_str(
                "SenseVoice 本地模型检查通过，已生成兼容词表并完成加载探测。",
            );
        },
        Err(e) => {
            let mut m = String::from_str("SenseVoice 检查失败: ");
            m.append(e.as_str());
            state.local_model_status = m;
            state.local_model_summary = String::from_str(
                "当前目录至少要有 `model.onnx`、`config.yaml`、`tokens.json`。如果已经齐全但仍失败，通常说明这个 ONNX 缺少 `transcribe-rs` 需要的 metadata，需要转换成 sherpa 兼容版本，或后续改走 FunASR runtime。",
            );
            state.input_state = InputState::Error;
            state.status_message = String::from_str(
                "SenseVoice 本地模型暂时不可用，请先看下方错误信息。",
            );
        },
    }
}

// ------------------------------------------------------- finishing input

/// What the pipeline reports once a dictation has been transcribed and
/// delivered, or has failed.
pub struct FinishInputResult {
    pub input_state: InputState,
    pub status_message: String,
    pub raw_text: Option<String>,
    pub delivered_text: Option<String>,
    pub local_model_ready: bool,
    pub local_model_status: String,
    pub local_model_summary: String,
    pub last_recording_info: String,
}

/// A dictation whose recording has stopped: the model may still have to be
/// probed, then the audio is transcribed.
pub struct FinishInputFlow {
    pub snapshot: FinishInputSnapshot,
    pub last_recording_info: String,
    pub local_model_ready: bool,
    pub local_model_status: String,
    pub local_model_summary: String,
}

/// A dictation whose transcript is known and whose delivery is pending.
pub struct PendingDelivery {
    pub flow: FinishInputFlow,
    pub raw_text: String,
    pub delivered_text: String,
    pub segment_count: usize,
    pub plan: DeliveryPlan,
}

/// How the recording of a dictation is transcribed.
pub enum Transcription {
    /// With the local SenseVoice model in `model_dir`, probing the directory
    /// first when `probe_first` (the model is not known to be ready).
    Local { probe_first: bool, model_dir: String },
    /// With Qwen-ASR, over this session.
    Online(QwenSession),
}

pub open spec fn probed_status() -> Seq<char> {
    "SenseVoice 已可被 Rust provider 加载。"@
}

pub open spec fn transcription_failed_message(provider: ModelProvider, e: Seq<char>) -> Seq<char> {
    recogniser_name(provider) + " 转写失败: "@ + e
}

pub open spec fn transcription_done_message(
    provider: ModelProvider,
    char_count: nat,
    segment_count: nat,
    report: Seq<char>,
) -> Seq<char> {
    match provider {
        ModelProvider::Local => "SenseVoice 转写完成，已识别 "@ + decimal_spec(char_count)
            + " 个字符，切出了 "@ + decimal_spec(segment_count) + " 段。"@ + report,
        ModelProvider::OnlineQwen => "Qwen-ASR 转写完成，已识别 "@ + decimal_spec(char_count)
            + " 个字符。"@ + report,
    }
}

impl FinishInputFlow {
    /// Whether the failure `r` reports `e` and keeps the flow's model facts.
    pub open spec fn failed_with(&self, r: FinishInputResult, e: Seq<char>) -> bool {
        &&& r.input_state == InputState::Error
        &&& r.status_message@ == transcription_failed_message(self.snapshot.model_provider, e)
        &&& r.raw_text is None
        &&& r.delivered_text is None
        &&& r.local_model_ready == self.local_model_ready
        &&& r.local_model_status@ == self.local_model_status@
        &&& r.local_model_summary@ == self.local_model_summary@
        &&& r.last_recording_info@ == self.last_recording_info@
    }

    /// Whether `d` holds the transcript `text` (with `segments` segments),
    /// normalised, shaped for the input mode, and its delivery planned.
    pub open spec fn accepted(self, d: PendingDelivery, text: Seq<char>, segments: nat) -> bool {
        &&& d.flow == self
        &&& d.raw_text@ == normalize_spec(text)
        &&& d.delivered_text@ == transform_spec(self.snapshot.input_mode, normalize_spec(text))
        &&& d.segment_count == segments
        &&& trim_spec(d.delivered_text@).len() == 0 ==> d.plan is NothingToSend
        &&& trim_spec(d.delivered_text@).len() > 0 && !self.snapshot.auto_paste
            ==> d.plan is AutoPasteOff
        &&& trim_spec(d.delivered_text@).len() > 0 && self.snapshot.auto_paste ==> (
        d.plan matches DeliveryPlan::Paste { text, target } && text@ == trim_spec(
            d.delivered_text@,
        ) && target == self.snapshot.delivery_target)
    }

    /// The flow for a stopped recording described by `last_recording_info`.
    pub fn new(snapshot: FinishInputSnapshot, last_recording_info: String) -> (f: FinishInputFlow)
        ensures
            f.snapshot == snapshot,
            f.last_recording_info == last_recording_info,
            f.local_model_ready == snapshot.local_model_ready,
            f.local_model_status@ == snapshot.local_model_status@,
            f.local_model_summary@ == snapshot.local_model_summary@,
    {
        let local_model_ready = snapshot.local_model_ready;
        let local_model_status = snapshot.local_model_status.clone();
        let local_model_summary = snapshot.local_model_summary.clone();
        FinishInputFlow {
            snapshot,
            last_recording_info,
            local_model_ready,
            local_model_status,
            local_model_summary,
        }
    }

    /// Chooses the recogniser for `sample_count` samples of audio by the
    /// snapshot's provider. The local provider uses only the SenseVoice
    /// model (probing it first unless it is known ready). The online
    /// provider uses only a Qwen-ASR session planned from the snapshot's
    /// online settings; an unusable configuration or empty audio ends the
    /// dictation in error.
    pub fn plan_transcription(self, sample_count: usize) -> (r: Result<
        (FinishInputFlow, Transcription),
        FinishInputResult,
    >)
        ensures
            self.snapshot.model_provider == ModelProvider::Local ==> (r matches Ok(
                (f, Transcription::Local { probe_first, model_dir }),
            ) && f == self && probe_first == !self.local_model_ready && model_dir@
                == self.snapshot.local_model_dir@),
            self.snapshot.model_provider == ModelProvider::OnlineQwen ==> match config_problem(
                self.snapshot.qwen,
            ) {
                Some(e) => r matches Err(res) && self.failed_with(res, e.message_spec()),
                None => if sample_count == 0 {
                    r matches Err(res) && self.failed_with(
                        res,
                        crate::qwen_asr::empty_audio_message(),
                    )
                } else {
                    r matches Ok((f, Transcription::Online(session))) && f == self
                        && session.endpoint@ == endpoint_spec(
                        self.snapshot.qwen.url@,
                        self.snapshot.qwen.model@,
                    ) && session.authorization@ == authorization_spec(
                        self.snapshot.qwen.api_key@,
                    ) && session.language@ == trim_spec(self.snapshot.qwen.language@)
                },
            },
    {
        match self.snapshot.model_provider {
            ModelProvider::Local => {
                let probe_first = !self.local_model_ready;
                let model_dir = self.snapshot.local_model_dir.clone();
                Ok((self, Transcription::Local { probe_first, model_dir }))
            },
            ModelProvider::OnlineQwen => match plan_session(&self.snapshot.qwen, sample_count) {
                Ok(session) => Ok((self, Transcription::Online(session))),
                Err(e) => Err(self.fail(e)),
            },
        }
    }

    fn fail(self, e: String) -> (r: FinishInputResult)
        ensures
            self.failed_with(r, e@),
    {
        let mut m = String::from_str(recogniser_label(self.snapshot.model_provider));
        m.append(" 转写失败: ");
        m.append(e.as_str());
        FinishInputResult {
            input_state: InputState::Error,
            status_message: m,
            raw_text: None,
            delivered_text: None,
            local_model_ready: self.local_model_ready,
            local_model_status: self.local_model_status,
            local_model_summary: self.local_model_summary,
            last_recording_info: self.last_recording_info,
        }
    }

    /// Takes in the outcome of probing the local model directory: on
    /// success the model is marked ready and its summary recorded; on
    /// failure the dictation ends in error.
    pub fn apply_probe(self, probe: Result<SenseVoiceProbe, String>) -> (r: Result<
        FinishInputFlow,
        FinishInputResult,
    >)
        requires
            self.snapshot.model_provider == ModelProvider::Local,
        ensures
            match probe {
                Ok(p) => r matches Ok(f) && f.local_model_ready && f.local_model_status@
                    == probed_status() && f.local_model_summary@ == probe_summary_spec(
                    p.model_dir@,
                    p.model_file@,
                    p.source_format@,
                    p.tokens_txt_file@,
                    p.tokens_count as nat,
                    p.load_strategy@,
                ) && f.snapshot == self.snapshot && f.last_recording_info
                    == self.last_recording_info,
                Err(e) => r matches Err(res) && self.failed_with(res, e@),
            },
    {
        match probe {
            Ok(p) => {
                let summary = format_probe_summary(&p);
                Ok(
                    FinishInputFlow {
                        snapshot: self.snapshot,
                        last_recording_info: self.last_recording_info,
                        local_model_ready: true,
                        local_model_status: String::from_str(
                            "SenseVoice 已可被 Rust provider 加载。",
                        ),
                        local_model_summary: summary,
                    },
                )
            },
            Err(e) => Err(self.fail(e)),
        }
    }

    fn accept(self, text: &str, segments: usize) -> (d: PendingDelivery)
        ensures
            self.accepted(d, text@, segments as nat),
    {
        let raw_text = normalize_text(text);
        let delivered_text = transform_text(self.snapshot.input_mode, raw_text.as_str());
        let trimmed = trim(delivered_text.as_str());
        let plan = deliver_output_from_snapshot(&self.snapshot, trimmed.as_str());
        PendingDelivery { flow: self, raw_text, delivered_text, segment_count: segments, plan }
    }

    /// Takes in the outcome of transcribing the recording with the local
    /// model: the transcript is normalised, shaped for the input mode, and
    /// its delivery planned.
    pub fn apply_transcript(self, transcript: Result<SenseVoiceTranscript, String>) -> (r: Result<
        PendingDelivery,
        FinishInputResult,
    >)
        requires
            self.snapshot.model_provider == ModelProvider::Local,
        ensures
            match transcript {
                Ok(t) => r matches Ok(d) && self.accepted(d, t.text@, t.segment_count as nat),
                Err(e) => r matches Err(res) && self.failed_with(res, e@),
            },
    {
        match transcript {
            Ok(t) => Ok(self.accept(t.text.as_str(), t.segment_count)),
            Err(e) => Err(self.fail(e)),
        }
    }

    /// Takes in the outcome of the Qwen-ASR session: the transcript is
    /// normalised, shaped for the input mode, and its delivery planned.
    pub fn apply_online_transcript(self, transcript: Result<QwenAsrTranscript, String>) -> (r: Result<
        PendingDelivery,
        FinishInputResult,
    >)
        requires
            self.snapshot.model_provider == ModelProvider::OnlineQwen,
        ensures
            match transcript {
                Ok(t) => r matches Ok(d) && self.accepted(d, t.text@, 0),
                Err(e) => r matches Err(res) && self.failed_with(res, e@),
            },
    {
        match transcript {
            Ok(t) => Ok(self.accept(t.text.as_str(), 0)),
            Err(e) => Err(self.fail(e)),
        }
    }
}

impl FinishInputResult {
    /// Writes the result into the state: pipeline state, status, model
    /// facts and recording description, and the texts when there are any.
    pub fn apply_to(self, state: &mut NativeAppState)
        ensures
            final(state).input_state == self.input_state,
            final(state).status_message@ == self.status_message@,
            final(state).raw_text@ == match self.raw_text {
                Some(t) => t@,
                None => old(state).raw_text@,
            },
            final(state).delivered_text@ == match self.delivered_text {
                Some(t) => t@,
                None => old(state).delivered_text@,
            },
            final(state).local_model_ready == self.local_model_ready,
            final(state).local_model_status@ == self.local_model_status@,
            final(state).local_model_summary@ == self.local_model_summary@,
            final(state).last_recording_info@ == self.last_recording_info@,
            final(state).practice_text@ == old(state).practice_text@,
            final(state).same_shortcut(*old(state)),
            final(state).same_settings(*old(state)),
    {
        state.input_state = self.input_state;
        state.status_message = self.status_message;
        if let Some(t) = self.raw_text {
            state.raw_text = t;
        }
        if let Some(t) = self.delivered_text {
            state.delivered_text = t;
        }
        state.local_model_ready = self.local_model_ready;
        state.local_model_status = self.local_model_status;
        state.local_model_summary = self.local_model_summary;
        state.last_recording_info = self.last_recording_info;
    }
}

impl PendingDelivery {
    /// Ends the dictation once the delivery has been attempted (`outcome` is
    /// only read when the plan pastes): success reports the length of the
    /// raw text, the number of segments and the delivery; a failed paste ends
    /// in error.
    pub fn complete(self, outcome: Result<(), String>) -> (r: FinishInputResult)
        ensures
            match self.plan.report_spec(outcome) {
                Ok(m) => {
                    &&& r.input_state == InputState::Success
                    &&& r.status_message@ == transcription_done_message(
                        self.flow.snapshot.model_provider,
                        self.raw_text@.len(),
                        self.segment_count as nat,
                        m,
                    )
                    &&& r.raw_text matches Some(t) && t@ == self.raw_text@
                    &&& r.delivered_text matches Some(t) && t@ == self.delivered_text@
                    &&& r.local_model_ready == self.flow.local_model_ready
                    &&& r.local_model_status@ == self.flow.local_model_status@
                    &&& r.local_model_summary@ == self.flow.local_model_summary@
                    &&& r.last_recording_info@ == self.flow.last_recording_info@
                },
                Err(e) => self.flow.failed_with(r, e),
            },
    {
        match self.plan.report(outcome) {
            Ok(m) => {
                let count = chars_of(self.raw_text.as_str()).len();
                let mut status = match self.flow.snapshot.model_provider {
                    ModelProvider::Local => String::from_str("SenseVoice 转写完成，已识别 "),
                    ModelProvider::OnlineQwen => String::from_str("Qwen-ASR 转写完成，已识别 "),
                };
                status.append(decimal(count as u64).as_str());
                match self.flow.snapshot.model_provider {
                    ModelProvider::Local => {
                        status.append(" 个字符，切出了 ");
                        status.append(decimal(self.segment_count as u64).as_str());
                        status.append(" 段。");
                    },
                    ModelProvider::OnlineQwen => {
                        status.append(" 个字符。");
                    },
                }
                status.append(m.as_str());
                FinishInputResult {
                    input_state: InputState::Success,
                    status_message: status,
                    raw_text: Some(self.raw_text),
                    delivered_text: Some(self.delivered_text),
                    local_model_ready: self.flow.local_model_ready,
                    local_model_status: self.flow.local_model_status,
                    local_model_summary: self.flow.local_model_summary,
                    last_recording_info: self.flow.last_recording_info,
                }
            },
            Err(e) => self.flow.fail(e),
        }
    }
}

} // verus!
