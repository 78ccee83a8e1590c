//! Application state: the choices a user makes and what the dictation
//! pipeline reports back.
use vstd::prelude::*;
use vstd::string::StringExecFns;

verus! {

/// How recognised speech is turned into the text that gets delivered.
#[derive(Debug, Clone, Copy, PartialEq, Eq, Structural)]
pub enum InputMode {
    CodeEdit,
    DirectPrompt,
}

impl InputMode {
    /// The modes in the order the settings page lists them.
    pub const ALL: [InputMode; 2] = [InputMode::DirectPrompt, InputMode::CodeEdit];

    pub open spec fn label_spec(self) -> Seq<char> {
        match self {
            InputMode::CodeEdit => "改代码"@,
            InputMode::DirectPrompt => "原文输出"@,
        }
    }

    /// Human-readable name shown in the settings page.
    pub fn label(self) -> (r: &'static str)
        ensures
            r@ == self.label_spec(),
    {
        match self {
            InputMode::CodeEdit => "改代码",
            InputMode::DirectPrompt => "原文输出",
        }
    }
}

/// Which speech recogniser is used.
#[derive(Debug, Clone, Copy, PartialEq, Eq, Structural)]
pub enum ModelProvider {
    Local,
    OnlineQwen,
}

impl ModelProvider {
    /// The providers in the order the settings page lists them.
    pub const ALL: [ModelProvider; 2] = [ModelProvider::Local, ModelProvider::OnlineQwen];

    pub open spec fn label_spec(self) -> Seq<char> {
        match self {
            ModelProvider::Local => "本地模型"@,
            ModelProvider::OnlineQwen => "在线模型"@,
        }
    }

    /// Human-readable name shown in the settings page.
    pub fn label(self) -> (r: &'static str)
        ensures
            r@ == self.label_spec(),
    {
        match self {
            ModelProvider::Local => "本地模型",
            ModelProvider::OnlineQwen => "在线模型",
        }
    }
}

/// Where the recognised text is pasted.
#[derive(Debug, Clone, Copy, PartialEq, Eq, Structural)]
pub enum DeliveryTarget {
    Cursor,
    VsCodeChat,
    CopilotChat,
    GenericInput,
}

impl DeliveryTarget {
    /// The targets in the order the settings page lists them and the target
    /// chip cycles through them.
    pub const ALL: [DeliveryTarget; 4] = [
        DeliveryTarget::Cursor,
        DeliveryTarget::VsCodeChat,
        DeliveryTarget::CopilotChat,
        DeliveryTarget::GenericInput,
    ];

    pub open spec fn label_spec(self) -> Seq<char> {
        match self {
            DeliveryTarget::Cursor => "Cursor"@,
            DeliveryTarget::VsCodeChat => "VS Code Chat"@,
            DeliveryTarget::CopilotChat => "Copilot Chat"@,
            DeliveryTarget::GenericInput => "当前输入框"@,
        }
    }

    /// Human-readable name of the target.
    pub fn label(self) -> (r: &'static str)
        ensures
            r@ == self.label_spec(),
    {
        match self {
            DeliveryTarget::Cursor => "Cursor",
            DeliveryTarget::VsCodeChat => "VS Code Chat",
            DeliveryTarget::CopilotChat => "Copilot Chat",
            DeliveryTarget::GenericInput => "当前输入框",
        }
    }

    /// Position of the target in declaration order.
    pub open spec fn index_spec(self) -> int {
        match self {
            DeliveryTarget::Cursor => 0,
            DeliveryTarget::VsCodeChat => 1,
            DeliveryTarget::CopilotChat => 2,
            DeliveryTarget::GenericInput => 3,
        }
    }

    pub open spec fn next_spec(self) -> DeliveryTarget {
        match self {
            DeliveryTarget::Cursor => DeliveryTarget::VsCodeChat,
            DeliveryTarget::VsCodeChat => DeliveryTarget::CopilotChat,
            DeliveryTarget::CopilotChat => DeliveryTarget::GenericInput,
            DeliveryTarget::GenericInput => DeliveryTarget::Cursor,
        }
    }

    /// The target after this one, wrapping around (what clicking the target chip does).
    pub fn next(self) -> (r: DeliveryTarget)
        ensures
            r == self.next_spec(),
            r.index_spec() == (self.index_spec() + 1) % 4,
    {
        match self {
            DeliveryTarget::Cursor => DeliveryTarget::VsCodeChat,
            DeliveryTarget::VsCodeChat => DeliveryTarget::CopilotChat,
            DeliveryTarget::CopilotChat => DeliveryTarget::GenericInput,
            DeliveryTarget::GenericInput => DeliveryTarget::Cursor,
        }
    }
}

/// Cycling through the delivery targets four times returns to the start,
/// and every target is reached on the way.
pub proof fn law_delivery_cycle(t: DeliveryTarget)
    ensures
        t.next_spec().next_spec().next_spec().next_spec() == t,
        forall|u: DeliveryTarget|
            #![trigger u.index_spec()]
            u == t || u == t.next_spec() || u == t.next_spec().next_spec() || u
                == t.next_spec().next_spec().next_spec(),
{
}

/// Where the dictation pipeline is.
#[derive(Debug, Clone, Copy, PartialEq, Eq, Structural)]
pub enum InputState {
    Idle,
    Recording,
    Processing,
    Success,
    Error,
}

impl InputState {
    pub open spec fn status_text_spec(self) -> Seq<char> {
        match self {
            InputState::Idle | InputState::Success => "准备就绪"@,
            InputState::Recording => "录音中"@,
            InputState::Processing => "识别中"@,
            InputState::Error => "出错了"@,
        }
    }

    /// The text of the status chip in the top bar.
    pub fn status_text(self) -> (r: &'static str)
        ensures
            r@ == self.status_text_spec(),
    {
        match self {
            InputState::Idle | InputState::Success => "准备就绪",
            InputState::Recording => "录音中",
            InputState::Processing => "识别中",
            InputState::Error => "出错了",
        }
    }
}

pub open spec fn default_shortcut() -> Seq<char> {
    "ctrl+z"@
}

pub open spec fn default_shortcut_status() -> Seq<char> {
    "快捷键尚未注册。"@
}

pub open spec fn default_status_message() -> Seq<char> {
    "原生输入法已启动，下一步接全局快捷键、录音和自动投送。"@
}

pub open spec fn default_practice_text() -> Seq<char> {
    "帮我把这个登录流程加上 refresh token，并补齐错误处理和测试。"@
}

pub open spec fn default_model_status() -> Seq<char> {
    "尚未检查 SenseVoice 本地模型。"@
}

pub open spec fn default_model_summary() -> Seq<char> {
    "当前默认指向官方 sherpa-onnx SenseVoice int8 目录；如果你切回旧 FunASR 风格目录，程序也会尝试把 `tokens.json` 转成 `tokens.txt` 再探测加载。"@
}

pub open spec fn default_recording_info() -> Seq<char> {
    "尚未开始真实录音。"@
}

pub open spec fn default_qwen_model() -> Seq<char> {
    "qwen3-asr-flash-realtime"@
}

pub open spec fn default_qwen_url() -> Seq<char> {
    "wss://dashscope.aliyuncs.com/api-ws/v1/realtime"@
}

pub open spec fn default_qwen_language() -> Seq<char> {
    "zh"@
}

pub open spec fn default_qwen_status() -> Seq<char> {
    "尚未配置 Qwen-ASR Realtime。"@
}

/// Everything the window shows and the pipeline updates.
pub struct NativeAppState {
    pub shortcut: String,
    pub shortcut_registered: bool,
    pub shortcut_recording: bool,
    pub shortcut_status: String,
    pub input_mode: InputMode,
    pub delivery_target: DeliveryTarget,
    pub input_state: InputState,
    pub status_message: String,
    pub raw_text: String,
    pub delivered_text: String,
    pub practice_text: String,
    pub auto_paste: bool,
    pub model_provider: ModelProvider,
    pub local_model_dir: String,
    pub local_model_ready: bool,
    pub local_model_status: String,
    pub local_model_summary: String,
    pub qwen_api_key: String,
    pub qwen_model: String,
    pub qwen_url: String,
    pub qwen_language: String,
    pub qwen_ready: bool,
    pub qwen_status: String,
    pub last_recording_info: String,
}

impl NativeAppState {
    /// The shortcut fields agree.
    pub open spec fn same_shortcut(self, o: NativeAppState) -> bool {
        &&& self.shortcut@ == o.shortcut@
        &&& self.shortcut_registered == o.shortcut_registered
        &&& self.shortcut_recording == o.shortcut_recording
        &&& self.shortcut_status@ == o.shortcut_status@
    }

    /// The user's settings agree: output mode, delivery target, automatic
    /// pasting, recogniser, model directory and online settings.
    pub open spec fn same_settings(self, o: NativeAppState) -> bool {
        &&& self.input_mode == o.input_mode
        &&& self.delivery_target == o.delivery_target
        &&& self.auto_paste == o.auto_paste
        &&& self.model_provider == o.model_provider
        &&& self.local_model_dir@ == o.local_model_dir@
        &&& self.qwen_api_key@ == o.qwen_api_key@
        &&& self.qwen_model@ == o.qwen_model@
        &&& self.qwen_url@ == o.qwen_url@
        &&& self.qwen_language@ == o.qwen_language@
        &&& self.qwen_ready == o.qwen_ready
        &&& self.qwen_status@ == o.qwen_status@
    }

    /// What is known of the local model agrees.
    pub open spec fn same_model_facts(self, o: NativeAppState) -> bool {
        &&& self.local_model_ready == o.local_model_ready
        &&& self.local_model_status@ == o.local_model_status@
        &&& self.local_model_summary@ == o.local_model_summary@
    }

    /// The dictation fields agree: pipeline state, status, texts and the
    /// recording description.
    pub open spec fn same_dictation(self, o: NativeAppState) -> bool {
        &&& self.input_state == o.input_state
        &&& self.status_message@ == o.status_message@
        &&& self.raw_text@ == o.raw_text@
        &&& self.delivered_text@ == o.delivered_text@
        &&& self.practice_text@ == o.practice_text@
        &&& self.last_recording_info@ == o.last_recording_info@
    }

    /// Every field agrees (strings by their characters).
    pub open spec fn same_state(self, o: NativeAppState) -> bool {
        &&& self.same_shortcut(o)
        &&& self.same_settings(o)
        &&& self.same_model_facts(o)
        &&& self.same_dictation(o)
    }

    /// The start-up state, pointing the local model at `local_model_dir`
    /// (the directory that `sensevoice::default_model_dir` picks).
    pub fn new(local_model_dir: String) -> (s: NativeAppState)
        ensures
            s.shortcut@ == default_shortcut(),
            !s.shortcut_registered,
            !s.shortcut_recording,
            s.shortcut_status@ == default_shortcut_status(),
            s.input_mode == InputMode::DirectPrompt,
            s.delivery_target == DeliveryTarget::Cursor,
            s.input_state == InputState::Idle,
            s.status_message@ == default_status_message(),
            s.raw_text@ == Seq::<char>::empty(),
            s.delivered_text@ == Seq::<char>::empty(),
            s.practice_text@ == default_practice_text(),
            s.auto_paste,
            s.model_provider == ModelProvider::Local,
            s.local_model_dir@ == local_model_dir@,
            !s.local_model_ready,
            s.local_model_status@ == default_model_status(),
            s.local_model_summary@ == default_model_summary(),
            s.qwen_api_key@ == Seq::<char>::empty(),
            s.qwen_model@ == default_qwen_model(),
            s.qwen_url@ == default_qwen_url(),
            s.qwen_language@ == default_qwen_language(),
            !s.qwen_ready,
            s.qwen_status@ == default_qwen_status(),
            s.last_recording_info@ == default_recording_info(),
    {
        NativeAppState {
            shortcut: String::from_str("ctrl+z"),
            shortcut_registered: false,
            shortcut_recording: false,
            shortcut_status: String::from_str("快捷键尚未注册。"),
            input_mode: InputMode::DirectPrompt,
            delivery_target: DeliveryTarget::Cursor,
            input_state: InputState::Idle,
            status_message: String::from_str("原生输入法已启动，下一步接全局快捷键、录音和自动投送。"),
            raw_text: String::new(),
            delivered_text: String::new(),
            practice_text: String::from_str(
                "帮我把这个登录流程加上 refresh token，并补齐错误处理和测试。",
            ),
            auto_paste: true,
            model_provider: ModelProvider::Local,
            local_model_dir,
            local_model_ready: false,
            local_model_status: String::from_str("尚未检查 SenseVoice 本地模型。"),
            local_model_summary: String::from_str(
                "当前默认指向官方 sherpa-onnx SenseVoice int8 目录；如果你切回旧 FunASR 风格目录，程序也会尝试把 `tokens.json` 转成 `tokens.txt` 再探测加载。",
            ),
            qwen_api_key: String::new(),
            qwen_model: String::from_str("qwen3-asr-flash-realtime"),
            qwen_url: String::from_str("wss://dashscope.aliyuncs.com/api-ws/v1/realtime"),
            qwen_language: String::from_str("zh"),
            qwen_ready: false,
            qwen_status: String::from_str("尚未配置 Qwen-ASR Realtime。"),
            last_recording_info: String::from_str("尚未开始真实录音。"),
        }
    }
}

} // verus!
