use vibe_coding_voice_native::sensevoice::{
    ensure_legacy_files,
    choose_layout, count_tokens_from_txt, default_model_dir, detect_model_params,
    ensure_file_exists, format_probe_summary, legacy_tokens_txt, load_error_message,
    model_dir_name, parse_tokens_json, tokens_txt_content, tokens_txt_needs_write,
    ModelDirCandidate, ModelLayout, ModelPrecision, SenseVoiceProbe, SenseVoiceTranscript,
};

fn cand(path: &str, exists: bool) -> ModelDirCandidate {
    ModelDirCandidate { path: path.to_string(), exists }
}

#[test]
fn default_dir_prefers_release_copies() {
    assert_eq!(default_model_dir(cand("a", true), cand("b", true), "c".to_string()), "a");
    assert_eq!(default_model_dir(cand("a", false), cand("b", true), "c".to_string()), "b");
    assert_eq!(default_model_dir(cand("a", false), cand("b", false), "c".to_string()), "c");
    assert_eq!(model_dir_name(), "sherpa-onnx-sense-voice-zh-en-ja-ko-yue-int8-2024-07-17");
}

#[test]
fn layouts_and_precision() {
    assert_eq!(choose_layout(true, true), ModelLayout::OfficialInt8);
    assert_eq!(choose_layout(true, false), ModelLayout::LegacyFp32);
    assert_eq!(choose_layout(false, true), ModelLayout::LegacyFp32);
    assert_eq!(detect_model_params("d", true, true).unwrap(), ModelPrecision::Int8);
    assert_eq!(detect_model_params("d", false, true).unwrap(), ModelPrecision::Fp32);
    assert_eq!(
        detect_model_params("C:/m", false, false).unwrap_err(),
        "在 `C:/m` 下找不到 `model.int8.onnx` 或 `model.onnx`。"
    );
    assert!(ensure_file_exists("x", true).is_ok());
    assert_eq!(ensure_file_exists("C:/m/config.yaml", false).unwrap_err(), "缺少文件: C:/m/config.yaml");
}

#[test]
fn probe_summary_lines() {
    let p = SenseVoiceProbe::new(
        ModelLayout::LegacyFp32,
        "D:/m".to_string(),
        "D:/m/model.onnx".to_string(),
        "D:/m/tokens.txt".to_string(),
        3,
    );
    assert_eq!(p.source_format, "旧 FunASR 风格目录");
    assert_eq!(p.load_strategy, "FP32 (`model.onnx`) + 自动生成 `tokens.txt`");
    assert_eq!(
        format_probe_summary(&p),
        [
            "模型目录: D:/m",
            "模型文件: D:/m/model.onnx",
            "目录类型: 旧 FunASR 风格目录",
            "兼容词表: D:/m/tokens.txt",
            "token 数量: 3",
            "加载策略: FP32 (`model.onnx`) + 自动生成 `tokens.txt`",
        ]
        .join("\n")
    );
    let o = SenseVoiceProbe::new(ModelLayout::OfficialInt8, "a".into(), "b".into(), "c".into(), 1);
    assert_eq!(o.source_format, "官方 sherpa-onnx SenseVoice int8");
    assert_eq!(o.load_strategy, "INT8 (`model.int8.onnx`) + 直接使用 `tokens.txt`");
}

#[test]
fn tokens_txt_format() {
    let tokens = vec!["<unk>".to_string(), "▁the".to_string(), "好".to_string()];
    assert_eq!(tokens_txt_content(&tokens), "<unk> 0\n▁the 1\n好 2\n");
    assert_eq!(legacy_tokens_txt(&tokens).unwrap(), "<unk> 0\n▁the 1\n好 2\n");
    assert_eq!(legacy_tokens_txt(&vec![]).unwrap_err(), "`tokens.json` 为空，无法生成 `tokens.txt`。");
}

#[test]
fn tokens_txt_round_trip() {
    let tokens: Vec<String> = (0..120).map(|i| format!("tok{i}")).collect();
    let content = tokens_txt_content(&tokens);
    assert_eq!(count_tokens_from_txt(&content), 120);
}

#[test]
fn count_skips_blank_lines() {
    assert_eq!(count_tokens_from_txt("a 0\n\n  \nb 1\r\n\tc 2"), 3);
    assert_eq!(count_tokens_from_txt(""), 0);
    assert_eq!(count_tokens_from_txt("\n\n"), 0);
    let content = "x 1\n \u{3000}\ny 2\n";
    let std_count = content.lines().filter(|l| !l.trim().is_empty()).count();
    assert_eq!(count_tokens_from_txt(content), std_count);
}

#[test]
fn tokens_json_parsing() {
    let tokens = parse_tokens_json("tokens.json", r#"["<blk>", "a", "\u597d"]"#).unwrap();
    assert_eq!(tokens, vec!["<blk>".to_string(), "a".to_string(), "好".to_string()]);
    let err = parse_tokens_json("D:/m/tokens.json", "{\"a\": 1}").unwrap_err();
    assert!(err.starts_with("解析 `D:/m/tokens.json` 失败，预期为字符串数组。: "));
    assert!(err.len() > "解析 `D:/m/tokens.json` 失败，预期为字符串数组。: ".len());
}

#[test]
fn rewrite_only_when_different() {
    let wanted = "a 0\n".to_string();
    assert!(tokens_txt_needs_write(&None, &wanted));
    assert!(tokens_txt_needs_write(&Some("b 0\n".to_string()), &wanted));
    assert!(!tokens_txt_needs_write(&Some("a 0\n".to_string()), &wanted));
}

#[test]
fn load_errors() {
    let m = load_error_message("D:/m", "Missing required metadata key: vocab_size in model");
    assert!(m.starts_with("已生成 `tokens.txt`，但当前 `model.onnx` 缺少 `vocab_size` 等 ONNX metadata。这说明 `D:/m` 里的模型"));
    assert_eq!(load_error_message("D:/m", "bad file"), "`transcribe-rs` 无法加载 `D:/m`: bad file");
}

#[test]
fn transcript_from_engine() {
    let t = SenseVoiceTranscript::from_engine("  你好。 ", Some(3));
    assert_eq!(t.text, "你好。");
    assert_eq!(t.segment_count, 3);
    assert_eq!(SenseVoiceTranscript::from_engine("x", None).segment_count, 0);
}

#[test]
fn legacy_files_reported_in_order() {
    assert_eq!(
        ensure_legacy_files("m/model.onnx", false, "m/config.yaml", false, "m/tokens.json", false),
        Err("缺少文件: m/model.onnx".to_string())
    );
    assert_eq!(
        ensure_legacy_files("m/model.onnx", true, "m/config.yaml", false, "m/tokens.json", false),
        Err("缺少文件: m/config.yaml".to_string())
    );
    assert_eq!(
        ensure_legacy_files("m/model.onnx", true, "m/config.yaml", true, "m/tokens.json", false),
        Err("缺少文件: m/tokens.json".to_string())
    );
    assert_eq!(ensure_legacy_files("a", true, "b", true, "c", true), Ok(()));
}
