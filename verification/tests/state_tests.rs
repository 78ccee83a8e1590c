use vibe_coding_voice_native::state::{
    DeliveryTarget, InputMode, InputState, ModelProvider, NativeAppState,
};

#[test]
fn labels() {
    assert_eq!(InputMode::CodeEdit.label(), "改代码");
    assert_eq!(InputMode::DirectPrompt.label(), "原文输出");
    assert_eq!(ModelProvider::Local.label(), "本地模型");
    assert_eq!(ModelProvider::OnlineQwen.label(), "在线模型");
    assert_eq!(DeliveryTarget::Cursor.label(), "Cursor");
    assert_eq!(DeliveryTarget::VsCodeChat.label(), "VS Code Chat");
    assert_eq!(DeliveryTarget::CopilotChat.label(), "Copilot Chat");
    assert_eq!(DeliveryTarget::GenericInput.label(), "当前输入框");
}

#[test]
fn mode_and_provider_lists() {
    assert_eq!(InputMode::ALL, [InputMode::DirectPrompt, InputMode::CodeEdit]);
    assert_eq!(ModelProvider::ALL, [ModelProvider::Local, ModelProvider::OnlineQwen]);
}

#[test]
fn delivery_target_cycles_through_all() {
    let start = DeliveryTarget::Cursor;
    let a = start.next();
    let b = a.next();
    let c = b.next();
    assert_eq!(a, DeliveryTarget::VsCodeChat);
    assert_eq!(b, DeliveryTarget::CopilotChat);
    assert_eq!(c, DeliveryTarget::GenericInput);
    assert_eq!(c.next(), start);
    assert_eq!(DeliveryTarget::ALL, [start, a, b, c]);
}

#[test]
fn status_texts() {
    assert_eq!(InputState::Idle.status_text(), "准备就绪");
    assert_eq!(InputState::Success.status_text(), "准备就绪");
    assert_eq!(InputState::Recording.status_text(), "录音中");
    assert_eq!(InputState::Processing.status_text(), "识别中");
    assert_eq!(InputState::Error.status_text(), "出错了");
}

#[test]
fn start_up_state() {
    let s = NativeAppState::new("D:/models/x".to_string());
    assert_eq!(s.shortcut, "ctrl+z");
    assert!(!s.shortcut_registered);
    assert!(!s.shortcut_recording);
    assert_eq!(s.shortcut_status, "快捷键尚未注册。");
    assert_eq!(s.input_mode, InputMode::DirectPrompt);
    assert_eq!(s.delivery_target, DeliveryTarget::Cursor);
    assert_eq!(s.input_state, InputState::Idle);
    assert!(s.raw_text.is_empty());
    assert!(s.auto_paste);
    assert_eq!(s.model_provider, ModelProvider::Local);
    assert_eq!(s.local_model_dir, "D:/models/x");
    assert!(!s.local_model_ready);
    assert_eq!(s.qwen_model, "qwen3-asr-flash-realtime");
    assert_eq!(s.qwen_url, "wss://dashscope.aliyuncs.com/api-ws/v1/realtime");
    assert_eq!(s.qwen_language, "zh");
    assert_eq!(s.practice_text, "帮我把这个登录流程加上 refresh token，并补齐错误处理和测试。");
    assert_eq!(s.last_recording_info, "尚未开始真实录音。");
}
