use vibe_coding_voice_native::sensevoice::{ModelLayout, SenseVoiceProbe, SenseVoiceTranscript};
use vibe_coding_voice_native::services::{
    accept_capture, begin_finish_input, begin_input, check_local_model, clear_result,
    finish_input_refused,
    deliver_output_from_snapshot, finish_practice_flow, note_startup_failure, prepare_send,
    recording_started_info, record_action, RecordAction, run_practice_flow, editor_transform_text, Transcription, sync_hidden_delivery_text, transform_text,
    visible_text_for_copy, DeliveryPlan, FinishInputFlow, FinishInputSnapshot,
};
use vibe_coding_voice_native::qwen_asr::QwenAsrTranscript;
use vibe_coding_voice_native::state::{
    DeliveryTarget, InputMode, InputState, ModelProvider, NativeAppState,
};

fn state() -> NativeAppState {
    NativeAppState::new("models/sv".to_string())
}

fn snapshot(auto_paste: bool, target: DeliveryTarget, ready: bool) -> FinishInputSnapshot {
    let mut s = state();
    s.auto_paste = auto_paste;
    s.delivery_target = target;
    s.local_model_ready = ready;
    s.input_mode = InputMode::CodeEdit;
    FinishInputSnapshot::of_state(&s)
}

fn probe() -> SenseVoiceProbe {
    SenseVoiceProbe::new(
        ModelLayout::OfficialInt8,
        "C:/m".to_string(),
        "C:/m/model.int8.onnx".to_string(),
        "C:/m/tokens.txt".to_string(),
        25055,
    )
}

#[test]
fn transform_code_edit() {
    let out = transform_text(InputMode::CodeEdit, "加上重试");
    let expected = [
        "请基于当前项目和代码上下文完成以下修改:",
        "- 需求: 加上重试",
        "- 先理解现有实现和相关依赖关系",
        "- 优先做最小必要改动，不要无关重构",
        "- 保持原有代码风格和命名习惯",
        "- 修改后说明改了哪些文件、做了什么",
    ]
    .join("\n");
    assert_eq!(out, expected);
}

#[test]
fn transform_direct_is_identity() {
    assert_eq!(transform_text(InputMode::DirectPrompt, " x  y "), " x  y ");
}

#[test]
fn delivery_plans_and_reports() {
    let s = snapshot(true, DeliveryTarget::Cursor, true);
    assert!(matches!(deliver_output_from_snapshot(&s, ""), DeliveryPlan::NothingToSend));
    let off = snapshot(false, DeliveryTarget::Cursor, true);
    let p = deliver_output_from_snapshot(&off, "hi");
    assert!(matches!(p, DeliveryPlan::AutoPasteOff));
    assert_eq!(p.report(Ok(())).unwrap(), "已生成投送文本，但自动粘贴已关闭。");
    let p = deliver_output_from_snapshot(&s, "hi");
    match &p {
        DeliveryPlan::Paste { text, target } => {
            assert_eq!(text, "hi");
            assert_eq!(*target, DeliveryTarget::Cursor);
        }
        _ => panic!("expected a paste"),
    }
    assert_eq!(p.report(Ok(())).unwrap(), "已复制到剪贴板，并尝试粘贴到 Cursor。");
    assert_eq!(p.report(Err("boom".to_string())).unwrap_err(), "boom");
    let g = snapshot(true, DeliveryTarget::GenericInput, true);
    let p = deliver_output_from_snapshot(&g, "hi");
    assert_eq!(p.report(Ok(())).unwrap(), "已复制到剪贴板，并尝试粘贴到当前输入框。");
    assert_eq!(
        DeliveryPlan::NothingToSend.report(Err("x".to_string())).unwrap(),
        "没有可投送的文本。"
    );
}

#[test]
fn practice_flow_with_paste() {
    let mut s = state();
    s.practice_text = "  hello   world ".to_string();
    let plan = run_practice_flow(&mut s);
    assert_eq!(s.input_state, InputState::Processing);
    assert_eq!(s.status_message, "正在演练原生输入法链路...");
    assert_eq!(s.raw_text, "hello world");
    assert_eq!(s.delivered_text, "hello world");
    assert!(plan.needs_paste());
    let failed = finish_practice_flow(&mut s, &plan, Ok(()));
    assert!(!failed);
    assert_eq!(s.input_state, InputState::Success);
    assert_eq!(
        s.status_message,
        "原生输入法演练已完成，目标为 Cursor。已复制到剪贴板，并尝试粘贴到 Cursor。"
    );
}

#[test]
fn practice_flow_with_failed_paste() {
    let mut s = state();
    s.delivery_target = DeliveryTarget::GenericInput;
    let plan = run_practice_flow(&mut s);
    let failed = finish_practice_flow(&mut s, &plan, Err("写入系统剪贴板失败。".to_string()));
    assert!(failed);
    assert_eq!(
        s.status_message,
        "原生输入法演练已完成，目标为 当前输入框。投送失败: 写入系统剪贴板失败。"
    );
}

#[test]
fn practice_flow_without_auto_paste() {
    let mut s = state();
    s.auto_paste = false;
    let plan = run_practice_flow(&mut s);
    assert!(!plan.needs_paste());
    finish_practice_flow(&mut s, &plan, Ok(()));
    assert_eq!(
        s.status_message,
        "原生输入法演练已完成，目标为 Cursor。已生成投送文本，但自动粘贴已关闭。"
    );
}

#[test]
fn send_refuses_blank_text() {
    let mut s = state();
    s.raw_text = "   ".to_string();
    assert_eq!(prepare_send(&mut s).err().unwrap(), "当前没有可发送的识别文本。");
    assert_eq!(s.input_state, InputState::Idle);
    s.raw_text = " edited  text".to_string();
    s.input_mode = InputMode::DirectPrompt;
    let plan = prepare_send(&mut s).ok().unwrap();
    assert_eq!(s.practice_text, " edited  text");
    assert_eq!(s.raw_text, "edited text");
    assert!(plan.needs_paste());
    match plan {
        DeliveryPlan::Paste { text, target } => {
            assert_eq!(text, "edited text");
            assert_eq!(target, DeliveryTarget::Cursor);
        }
        _ => panic!("send did not plan a paste"),
    }
    s.raw_text = "again".to_string();
    s.auto_paste = false;
    assert!(matches!(prepare_send(&mut s).ok().unwrap(), DeliveryPlan::AutoPasteOff));
}

#[test]
fn record_button_toggles() {
    let mut s = state();
    assert_eq!(record_action(&s), RecordAction::Begin);
    s.input_state = InputState::Recording;
    assert_eq!(record_action(&s), RecordAction::Finish);
    s.input_state = InputState::Error;
    assert_eq!(record_action(&s), RecordAction::Begin);
}

#[test]
fn copy_uses_trimmed_text() {
    let mut s = state();
    s.raw_text = "  ".to_string();
    assert_eq!(visible_text_for_copy(&s).unwrap_err(), "当前没有可复制的识别文本。");
    s.raw_text = " 你好 ".to_string();
    assert_eq!(visible_text_for_copy(&s).unwrap(), "你好");
}

#[test]
fn begin_input_outcomes() {
    let mut s = state();
    begin_input(&mut s, Ok("info".to_string()), Ok(()));
    assert_eq!(s.input_state, InputState::Recording);
    assert_eq!(s.last_recording_info, "info");
    assert_eq!(s.status_message, "已经开始真实录音。说完后再次按快捷键或点“结束并发送”即可完成。");

    let mut s = state();
    begin_input(&mut s, Ok("info".to_string()), Err("no host".to_string()));
    assert_eq!(s.input_state, InputState::Recording);
    assert_eq!(s.status_message, "录音已开始，但浮层启动失败: no host");

    let mut s = state();
    begin_input(&mut s, Err("没有找到可用的默认麦克风。".to_string()), Ok(()));
    assert_eq!(s.input_state, InputState::Error);
    assert_eq!(s.status_message, "启动录音失败: 没有找到可用的默认麦克风。");
    assert_eq!(s.last_recording_info, "录音没有启动。");
}

#[test]
fn finishing_requires_a_recording() {
    let mut s = state();
    assert_eq!(begin_finish_input(&mut s).err().unwrap(), "当前没有正在进行的口述。");
    assert_eq!(s.input_state, InputState::Idle);
    s.input_state = InputState::Recording;
    let snap = begin_finish_input(&mut s).ok().unwrap();
    assert_eq!(s.input_state, InputState::Processing);
    assert_eq!(s.status_message, "正在停止录音并送入 SenseVoice...");
    assert_eq!(snap.local_model_dir, "models/sv");
    assert_eq!(accept_capture(&mut s, "录音完成", 0).unwrap_err(), "录到的音频为空，请再试一次。");
    assert_eq!(s.last_recording_info, "录音完成");
    assert!(accept_capture(&mut s, "录音完成", 10).is_ok());
}

#[test]
fn model_check_outcomes() {
    let mut s = state();
    check_local_model(&mut s, Ok(probe()));
    assert!(s.local_model_ready);
    assert_eq!(s.local_model_status, "SenseVoice 已可被 Rust provider 加载。下一步只差真实录音链路。");
    assert!(s.local_model_summary.starts_with("模型目录: C:/m\n模型文件: C:/m/model.int8.onnx"));
    assert_eq!(s.status_message, "SenseVoice 本地模型检查通过，已生成兼容词表并完成加载探测。");

    let mut s = state();
    check_local_model(&mut s, Err("缺少文件: x".to_string()));
    assert!(!s.local_model_ready);
    assert_eq!(s.local_model_status, "SenseVoice 检查失败: 缺少文件: x");
    assert_eq!(s.input_state, InputState::Error);
    assert_eq!(s.status_message, "SenseVoice 本地模型暂时不可用，请先看下方错误信息。");
}

#[test]
fn finish_flow_success() {
    let flow = FinishInputFlow::new(snapshot(true, DeliveryTarget::Cursor, false), "rec".to_string());
    let (flow, plan) = flow.plan_transcription(10).ok().unwrap();
    match plan {
        Transcription::Local { probe_first, model_dir } => {
            assert!(probe_first);
            assert_eq!(model_dir, "models/sv");
        }
        Transcription::Online(_) => panic!("local provider planned an online session"),
    }
    let flow = flow.apply_probe(Ok(probe())).ok().unwrap();
    match flow.plan_transcription(10).ok().unwrap().1 {
        Transcription::Local { probe_first, .. } => assert!(!probe_first),
        Transcription::Online(_) => panic!("local provider planned an online session"),
    }
    let flow = FinishInputFlow::new(snapshot(true, DeliveryTarget::Cursor, false), "rec".to_string());
    let flow = flow.apply_probe(Ok(probe())).ok().unwrap();
    assert_eq!(flow.local_model_status, "SenseVoice 已可被 Rust provider 加载。");
    let transcript = SenseVoiceTranscript::from_engine("  你好  世界 ", Some(2));
    let pending = flow.apply_transcript(Ok(transcript)).ok().unwrap();
    assert_eq!(pending.raw_text, "你好 世界");
    assert!(pending.delivered_text.starts_with("请基于当前项目和代码上下文完成以下修改:\n- 需求: 你好 世界\n"));
    assert!(pending.plan.needs_paste());
    let r = pending.complete(Ok(()));
    assert_eq!(r.input_state, InputState::Success);
    assert_eq!(
        r.status_message,
        "SenseVoice 转写完成，已识别 5 个字符，切出了 2 段。已复制到剪贴板，并尝试粘贴到 Cursor。"
    );
    assert_eq!(r.raw_text.as_deref(), Some("你好 世界"));
    assert!(r.local_model_ready);
    assert_eq!(r.last_recording_info, "rec");
    let mut s = state();
    r.apply_to(&mut s);
    assert_eq!(s.raw_text, "你好 世界");
    assert_eq!(s.input_state, InputState::Success);
    assert!(s.local_model_ready);
}

#[test]
fn finish_flow_failures() {
    let flow = FinishInputFlow::new(snapshot(true, DeliveryTarget::Cursor, false), "rec".to_string());
    let r = flow.apply_probe(Err("缺少文件: model.onnx".to_string())).err().unwrap();
    assert_eq!(r.input_state, InputState::Error);
    assert_eq!(r.status_message, "SenseVoice 转写失败: 缺少文件: model.onnx");
    assert!(r.raw_text.is_none());
    assert!(!r.local_model_ready);

    let flow = FinishInputFlow::new(snapshot(true, DeliveryTarget::Cursor, false), "rec".to_string());
    let flow = flow.apply_probe(Ok(probe())).ok().unwrap();
    let r = flow.apply_transcript(Err("SenseVoice 转写失败: x".to_string())).err().unwrap();
    assert_eq!(r.status_message, "SenseVoice 转写失败: SenseVoice 转写失败: x");
    assert!(r.local_model_ready);

    let flow = FinishInputFlow::new(snapshot(true, DeliveryTarget::Cursor, true), "rec".to_string());
    let pending = flow
        .apply_transcript(Ok(SenseVoiceTranscript::from_engine("hi", None)))
        .ok()
        .unwrap();
    let r = pending.complete(Err("发送 V 失败: denied".to_string()));
    assert_eq!(r.input_state, InputState::Error);
    assert_eq!(r.status_message, "SenseVoice 转写失败: 发送 V 失败: denied");
    assert!(r.delivered_text.is_none());
}

#[test]
fn finish_flow_empty_transcript_is_nothing_to_send() {
    let mut snap = snapshot(true, DeliveryTarget::Cursor, true);
    snap.input_mode = InputMode::DirectPrompt;
    let flow = FinishInputFlow::new(snap, "rec".to_string());
    let pending = flow
        .apply_transcript(Ok(SenseVoiceTranscript::from_engine("   ", Some(0))))
        .ok()
        .unwrap();
    assert!(!pending.plan.needs_paste());
    let r = pending.complete(Err("not read".to_string()));
    assert_eq!(r.input_state, InputState::Success);
    assert_eq!(r.status_message, "SenseVoice 转写完成，已识别 0 个字符，切出了 0 段。没有可投送的文本。");
}

#[test]
fn small_state_updates() {
    let mut s = state();
    s.raw_text = "x".to_string();
    s.input_mode = InputMode::CodeEdit;
    sync_hidden_delivery_text(&mut s);
    assert_eq!(s.delivered_text, editor_transform_text(InputMode::CodeEdit, "x"));
    note_startup_failure(&mut s, "托盘初始化", "no tray");
    assert_eq!(
        s.status_message,
        "原生输入法已启动，下一步接全局快捷键、录音和自动投送。 托盘初始化失败: no tray"
    );
    assert_eq!(
        recording_started_info("USB Mic", 48000, 2),
        "正在使用默认麦克风 `USB Mic` 录音，输入配置为 48000 Hz / 2 通道。"
    );
}

#[test]
fn clearing_and_refusing_a_finish() {
    let mut s = state();
    s.raw_text = "hello".to_string();
    s.delivered_text = "hello".to_string();
    s.status_message = "kept".to_string();
    clear_result(&mut s);
    assert_eq!(s.raw_text, "");
    assert_eq!(s.delivered_text, "");
    assert_eq!(s.status_message, "kept");

    s.input_state = InputState::Processing;
    s.raw_text = "before".to_string();
    finish_input_refused(&mut s, "录到的音频为空，请再试一次。".to_string());
    assert_eq!(s.input_state, InputState::Error);
    assert_eq!(s.status_message, "录到的音频为空，请再试一次。");
    assert_eq!(s.raw_text, "before");
}

#[test]
fn editor_uses_its_short_template() {
    assert_eq!(
        editor_transform_text(InputMode::CodeEdit, "加测试"),
        "请基于当前代码上下文执行以下修改:\n- 需求: 加测试\n- 先理解现有实现\n- 保持改动范围尽量小\n- 给出必要的关键说明"
    );
    assert_eq!(editor_transform_text(InputMode::DirectPrompt, " 加测试 "), " 加测试 ");
    let mut s = state();
    s.input_mode = InputMode::CodeEdit;
    s.raw_text = "加测试".to_string();
    sync_hidden_delivery_text(&mut s);
    assert_eq!(
        s.delivered_text,
        "请基于当前代码上下文执行以下修改:\n- 需求: 加测试\n- 先理解现有实现\n- 保持改动范围尽量小\n- 给出必要的关键说明"
    );
    assert_eq!(s.raw_text, "加测试");
}

fn online_snapshot(api_key: &str, url: &str) -> FinishInputSnapshot {
    let mut s = state();
    s.model_provider = ModelProvider::OnlineQwen;
    s.qwen_api_key = api_key.to_string();
    s.qwen_url = url.to_string();
    s.input_mode = InputMode::DirectPrompt;
    s.auto_paste = false;
    FinishInputSnapshot::of_state(&s)
}

#[test]
fn online_provider_uses_a_qwen_session() {
    let mut s = state();
    s.model_provider = ModelProvider::OnlineQwen;
    s.input_state = InputState::Recording;
    let snap = begin_finish_input(&mut s).ok().unwrap();
    assert_eq!(s.status_message, "正在停止录音并送入 Qwen-ASR...");
    assert_eq!(snap.model_provider, ModelProvider::OnlineQwen);

    let flow = FinishInputFlow::new(online_snapshot(" key ", "wss://host/rt/"), "rec".to_string());
    let (flow, plan) = flow.plan_transcription(4).ok().unwrap();
    match plan {
        Transcription::Online(session) => {
            assert_eq!(session.endpoint, "wss://host/rt?model=qwen3-asr-flash-realtime");
            assert_eq!(session.authorization, "bearer key");
            assert_eq!(session.language, "zh");
        }
        Transcription::Local { .. } => panic!("online provider planned the local model"),
    }
    let pending = flow
        .apply_online_transcript(Ok(QwenAsrTranscript { text: " 你好   世界 ".to_string() }))
        .ok()
        .unwrap();
    assert_eq!(pending.raw_text, "你好 世界");
    let r = pending.complete(Ok(()));
    assert_eq!(r.input_state, InputState::Success);
    assert_eq!(r.status_message, "Qwen-ASR 转写完成，已识别 5 个字符。已生成投送文本，但自动粘贴已关闭。");
    assert!(!r.local_model_ready);
}

#[test]
fn online_provider_failures() {
    let flow = FinishInputFlow::new(online_snapshot("", "wss://host"), "rec".to_string());
    let r = flow.plan_transcription(4).err().unwrap();
    assert_eq!(r.input_state, InputState::Error);
    assert_eq!(r.status_message, "Qwen-ASR 转写失败: 请先填写 DashScope API Key。");

    let flow = FinishInputFlow::new(online_snapshot("k", "https://host"), "rec".to_string());
    let r = flow.plan_transcription(4).err().unwrap();
    assert_eq!(r.status_message, "Qwen-ASR 转写失败: Qwen-ASR WebSocket 地址需要以 wss:// 开头。");

    let flow = FinishInputFlow::new(online_snapshot("k", "wss://host"), "rec".to_string());
    let r = flow.plan_transcription(0).err().unwrap();
    assert_eq!(r.status_message, "Qwen-ASR 转写失败: 录音音频为空。");

    let flow = FinishInputFlow::new(online_snapshot("k", "wss://host"), "rec".to_string());
    let r = flow
        .apply_online_transcript(Err("Qwen-ASR 没有返回最终识别文本。".to_string()))
        .err()
        .unwrap();
    assert_eq!(r.status_message, "Qwen-ASR 转写失败: Qwen-ASR 没有返回最终识别文本。");
}

#[test]
fn practice_run_without_paste_repeats() {
    let mut s = state();
    s.auto_paste = false;
    s.shortcut = "Alt+F1".to_string();
    let p1 = run_practice_flow(&mut s);
    assert!(!p1.needs_paste());
    finish_practice_flow(&mut s, &p1, Ok(()));
    let (raw, delivered, status) = (s.raw_text.clone(), s.delivered_text.clone(), s.status_message.clone());
    let p2 = run_practice_flow(&mut s);
    assert!(!p2.needs_paste());
    finish_practice_flow(&mut s, &p2, Ok(()));
    assert_eq!((s.raw_text.clone(), s.delivered_text.clone(), s.status_message.clone()), (raw, delivered, status));
    assert_eq!(s.shortcut, "Alt+F1");
    assert_eq!(s.input_state, InputState::Success);
}
