//! Local SenseVoice model directories: which layout a directory has, the
//! `tokens.txt` vocabulary file, and the summary shown after a probe.
use crate::json::json_error_text;
use crate::text::{
    chars_of, concat, decimal, decimal_spec, is_white_space, is_whitespace, push_char, trim,
    trim_spec,
};
use vstd::prelude::*;
use vstd::string::StringExecFns;

verus! {

broadcast use vstd::string::group_string_axioms;

/// Folder name of the recommended model release.
pub open spec fn default_model_dir_name() -> Seq<char> {
    "sherpa-onnx-sense-voice-zh-en-ja-ko-yue-int8-2024-07-17"@
}

/// Folder name of the recommended model release.
pub fn model_dir_name() -> (r: &'static str)
    ensures
        r@ == default_model_dir_name(),
{
    "sherpa-onnx-sense-voice-zh-en-ja-ko-yue-int8-2024-07-17"
}

/// A place where the model may be installed, and whether it exists.
pub struct ModelDirCandidate {
    pub path: String,
    pub exists: bool,
}

/// The model directory used at start-up: the copy next to the executable
/// (`models/…`), else the one in `official-models/…` next to the executable,
/// else the development checkout's sibling `official-models/…` folder.
pub fn default_model_dir(
    release: ModelDirCandidate,
    release_official: ModelDirCandidate,
    development: String,
) -> (r: String)
    ensures
        release.exists ==> r@ == release.path@,
        !release.exists && release_official.exists ==> r@ == release_official.path@,
        !release.exists && !release_official.exists ==> r@ == development@,
{
    if release.exists {
        release.path
    } else if release_official.exists {
        release_official.path
    } else {
        development
    }
}

/// What a successful probe of a model directory found.
pub struct SenseVoiceProbe {
    pub model_dir: String,
    pub model_file: String,
    pub tokens_txt_file: String,
    pub tokens_count: usize,
    pub source_format: String,
    pub load_strategy: String,
}

/// Text recognised from one recording.
pub struct SenseVoiceTranscript {
    pub text: String,
    pub segment_count: usize,
}

impl SenseVoiceTranscript {
    /// The transcript of an engine result: its text trimmed, and the number
    /// of segments (zero when the engine gave none).
    pub fn from_engine(text: &str, segments: Option<usize>) -> (t: SenseVoiceTranscript)
        ensures
            t.text@ == trim_spec(text@),
            t.segment_count == match segments {
                Some(n) => n,
                None => 0,
            },
    {
        SenseVoiceTranscript {
            text: trim(text),
            segment_count: match segments {
                Some(n) => n,
                None => 0,
            },
        }
    }
}

/// The two directory layouts that can be loaded.
#[derive(Debug, Clone, Copy, PartialEq, Eq, Structural)]
pub enum ModelLayout {
    /// sherpa-onnx release: `model.int8.onnx` beside `tokens.txt`.
    OfficialInt8,
    /// Older FunASR export: `model.onnx`, `config.yaml` and `tokens.json`.
    LegacyFp32,
}

/// The layout to probe: the official one when both of its files are present.
pub fn choose_layout(int8_model_exists: bool, tokens_txt_exists: bool) -> (l: ModelLayout)
    ensures
        l == ModelLayout::OfficialInt8 <==> int8_model_exists && tokens_txt_exists,
{
    if int8_model_exists && tokens_txt_exists {
        ModelLayout::OfficialInt8
    } else {
        ModelLayout::LegacyFp32
    }
}

/// Numeric precision of the model file that gets loaded.
#[derive(Debug, Clone, Copy, PartialEq, Eq, Structural)]
pub enum ModelPrecision {
    Int8,
    Fp32,
}

pub open spec fn missing_model_message(model_dir: Seq<char>) -> Seq<char> {
    "在 `"@ + model_dir + "` 下找不到 `model.int8.onnx` 或 `model.onnx`。"@
}

/// Which model file a transcription loads: int8 when present, else fp32.
pub fn detect_model_params(model_dir: &str, int8_exists: bool, fp32_exists: bool) -> (r: Result<
    ModelPrecision,
    String,
>)
    ensures
        int8_exists ==> r == Ok::<ModelPrecision, String>(ModelPrecision::Int8),
        !int8_exists && fp32_exists ==> r == Ok::<ModelPrecision, String>(ModelPrecision::Fp32),
        !int8_exists && !fp32_exists ==> r is Err && r->Err_0@ == missing_model_message(
            model_dir@,
        ),
{
    if int8_exists {
        Ok(ModelPrecision::Int8)
    } else if fp32_exists {
        Ok(ModelPrecision::Fp32)
    } else {
        let mut m = String::from_str("在 `");
        m.append(model_dir);
        m.append("` 下找不到 `model.int8.onnx` 或 `model.onnx`。");
        Err(m)
    }
}

pub open spec fn missing_file_message(path: Seq<char>) -> Seq<char> {
    "缺少文件: "@ + path
}

/// The error for a required file that is absent.
pub fn ensure_file_exists(path: &str, exists: bool) -> (r: Result<(), String>)
    ensures
        exists <==> r is Ok,
        !exists ==> r->Err_0@ == missing_file_message(path@),
{
    if exists {
        Ok(())
    } else {
        Err(concat("缺少文件: ", path))
    }
}

/// The files a legacy directory needs, checked in order (`model.onnx`,
/// `config.yaml`, `tokens.json`, each given by its path and whether it
/// exists): the first absent one is reported.
pub fn ensure_legacy_files(
    model_file: &str,
    model_file_exists: bool,
    config_file: &str,
    config_file_exists: bool,
    tokens_json_file: &str,
    tokens_json_exists: bool,
) -> (r: Result<(), String>)
    ensures
        !model_file_exists ==> r is Err && r->Err_0@ == missing_file_message(model_file@),
        model_file_exists && !config_file_exists ==> r is Err && r->Err_0@ == missing_file_message(
            config_file@,
        ),
        model_file_exists && config_file_exists && !tokens_json_exists ==> r is Err && r->Err_0@
            == missing_file_message(tokens_json_file@),
        model_file_exists && config_file_exists && tokens_json_exists ==> r is Ok,
{
    ensure_file_exists(model_file, model_file_exists)?;
    ensure_file_exists(config_file, config_file_exists)?;
    ensure_file_exists(tokens_json_file, tokens_json_exists)
}

pub open spec fn official_source_format() -> Seq<char> {
    "官方 sherpa-onnx SenseVoice int8"@
}

pub open spec fn official_load_strategy() -> Seq<char> {
    "INT8 (`model.int8.onnx`) + 直接使用 `tokens.txt`"@
}

pub open spec fn legacy_source_format() -> Seq<char> {
    "旧 FunASR 风格目录"@
}

pub open spec fn legacy_load_strategy() -> Seq<char> {
    "FP32 (`model.onnx`) + 自动生成 `tokens.txt`"@
}

impl SenseVoiceProbe {
    /// The probe of a directory in the given layout.
    pub fn new(
        layout: ModelLayout,
        model_dir: String,
        model_file: String,
        tokens_txt_file: String,
        tokens_count: usize,
    ) -> (p: SenseVoiceProbe)
        ensures
            p.model_dir@ == model_dir@,
            p.model_file@ == model_file@,
            p.tokens_txt_file@ == tokens_txt_file@,
            p.tokens_count == tokens_count,
            layout == ModelLayout::OfficialInt8 ==> p.source_format@ == official_source_format()
                && p.load_strategy@ == official_load_strategy(),
            layout == ModelLayout::LegacyFp32 ==> p.source_format@ == legacy_source_format()
                && p.load_strategy@ == legacy_load_strategy(),
    {
        let (source_format, load_strategy) = match layout {
            ModelLayout::OfficialInt8 => (
                String::from_str("官方 sherpa-onnx SenseVoice int8"),
                String::from_str("INT8 (`model.int8.onnx`) + 直接使用 `tokens.txt`"),
            ),
            ModelLayout::LegacyFp32 => (
                String::from_str("旧 FunASR 风格目录"),
                String::from_str("FP32 (`model.onnx`) + 自动生成 `tokens.txt`"),
            ),
        };
        SenseVoiceProbe {
            model_dir,
            model_file,
            tokens_txt_file,
            tokens_count,
            source_format,
            load_strategy,
        }
    }
}

/// The multi-line summary shown in the settings page after a probe.
pub open spec fn probe_summary_spec(
    model_dir: Seq<char>,
    model_file: Seq<char>,
    source_format: Seq<char>,
    tokens_txt_file: Seq<char>,
    tokens_count: nat,
    load_strategy: Seq<char>,
) -> Seq<char> {
    "模型目录: "@ + model_dir + "\n模型文件: "@ + model_file + "\n目录类型: "@ + source_format
        + "\n兼容词表: "@ + tokens_txt_file + "\ntoken 数量: "@ + decimal_spec(tokens_count)
        + "\n加载策略: "@ + load_strategy
}

/// One line per fact of the probe: directory, model file, layout, vocabulary
/// file, number of tokens and loading strategy.
pub fn format_probe_summary(probe: &SenseVoiceProbe) -> (r: String)
    ensures
        r@ == probe_summary_spec(
            probe.model_dir@,
            probe.model_file@,
            probe.source_format@,
            probe.tokens_txt_file@,
            probe.tokens_count as nat,
            probe.load_strategy@,
        ),
{
    let mut r = String::from_str("模型目录: ");
    r.append(probe.model_dir.as_str());
    r.append("\n模型文件: ");
    r.append(probe.model_file.as_str());
    r.append("\n目录类型: ");
    r.append(probe.source_format.as_str());
    r.append("\n兼容词表: ");
    r.append(probe.tokens_txt_file.as_str());
    r.append("\ntoken 数量: ");
    let count = decimal(probe.tokens_count as u64);
    r.append(count.as_str());
    r.append("\n加载策略: ");
    r.append(probe.load_strategy.as_str());
    r
}

// ------------------------------------------------------------ vocabulary

/// `tokens.txt` for a list of tokens: line `i` holds token `i`, a space and `i`.
pub open spec fn tokens_txt_spec(tokens: Seq<Seq<char>>) -> Seq<char>
    decreases tokens.len(),
{
    if tokens.len() == 0 {
        Seq::empty()
    } else {
        let n = (tokens.len() - 1) as nat;
        tokens_txt_spec(tokens.drop_last()) + tokens.last() + seq![' '] + decimal_spec(n) + seq![
            '\n',
        ]
    }
}

/// The content of `tokens.txt` for the tokens of a `tokens.json` file.
pub fn tokens_txt_content(tokens: &Vec<String>) -> (r: String)
    ensures
        r@ == tokens_txt_spec(tokens.deep_view()),
{
    let mut r = String::new();
    let mut i: usize = 0;
    while i < tokens.len()
        invariant
            i <= tokens@.len(),
            r@ == tokens_txt_spec(tokens.deep_view().take(i as int)),
        decreases tokens@.len() - i,
    {
        let ghost before = r@;
        r.append(tokens[i].as_str());
        push_char(&mut r, ' ');
        let digits = decimal(i as u64);
        r.append(digits.as_str());
        push_char(&mut r, '\n');
        let ghost t = tokens.deep_view().take(i + 1);
        assert(t.drop_last() == tokens.deep_view().take(i as int));
        assert(t.last() == tokens[i as int]@);
        assert(r@ == before + tokens[i as int]@ + seq![' '] + decimal_spec(i as nat) + seq!['\n']);
        i = i + 1;
    }
    assert(tokens.deep_view().take(tokens@.len() as int) == tokens.deep_view());
    r
}

/// Whether the line being read (the text after the last newline of `s`)
/// already holds a non-whitespace character.
pub open spec fn open_line_has_word(s: Seq<char>) -> bool
    decreases s.len(),
{
    s.len() > 0 && s.last() != '\n' && (!is_white_space(s.last()) || open_line_has_word(
        s.drop_last(),
    ))
}

/// The number of lines of `s` that are not blank: a line is counted at its
/// first non-whitespace character.
pub open spec fn nonblank_line_count(s: Seq<char>) -> nat
    decreases s.len(),
{
    if s.len() == 0 {
        0
    } else {
        let p = s.drop_last();
        let c = s.last();
        if c != '\n' && !is_white_space(c) && !open_line_has_word(p) {
            nonblank_line_count(p) + 1
        } else {
            nonblank_line_count(p)
        }
    }
}

/// Number of non-blank lines in the content of a `tokens.txt` file.
pub fn count_tokens_from_txt(content: &str) -> (n: usize)
    ensures
        n == nonblank_line_count(content@),
{
    let v = chars_of(content);
    let mut n: usize = 0;
    let mut word = false;
    let mut i: usize = 0;
    while i < v.len()
        invariant
            i <= v@.len(),
            v@ == content@,
            n == nonblank_line_count(v@.take(i as int)),
            n <= i,
            word == open_line_has_word(v@.take(i as int)),
        decreases v@.len() - i,
    {
        let c = v[i];
        let ghost t = v@.take(i + 1);
        assert(t.drop_last() == v@.take(i as int));
        assert(t.last() == c);
        if c == '\n' {
            word = false;
        } else if !is_whitespace(c) {
            if !word {
                n = n + 1;
            }
            word = true;
        }
        i = i + 1;
    }
    assert(v@.take(v@.len() as int) == v@);
    n
}

proof fn lemma_open_line_appended(s: Seq<char>, t: Seq<char>)
    requires
        !open_line_has_word(s),
        !t.contains('\n'),
    ensures
        open_line_has_word(s + t) == (exists|i: int| 0 <= i < t.len() && !is_white_space(t[i])),
        nonblank_line_count(s + t) == nonblank_line_count(s) + if (exists|i: int|
            0 <= i < t.len() && !is_white_space(t[i])) {
            1nat
        } else {
            0nat
        },
    decreases t.len(),
{
    if t.len() == 0 {
        assert(s + t == s);
    } else {
        let u = t.drop_last();
        assert(!u.contains('\n')) by {
            if u.contains('\n') {
                let k = choose|k: int| 0 <= k < u.len() && u[k] == '\n';
                assert(t[k] == '\n');
            }
        }
        lemma_open_line_appended(s, u);
        assert((s + t).drop_last() == s + u);
        assert((s + t).last() == t.last());
        assert(t[t.len() - 1] != '\n');
        if exists|i: int| 0 <= i < u.len() && !is_white_space(u[i]) {
            let k = choose|i: int| 0 <= i < u.len() && !is_white_space(u[i]);
            assert(t[k] == u[k]);
        }
        if exists|i: int| 0 <= i < t.len() && !is_white_space(t[i]) {
            let k = choose|i: int| 0 <= i < t.len() && !is_white_space(t[i]);
            if k < u.len() {
                assert(u[k] == t[k]);
            }
        }
    }
}

proof fn lemma_decimal_has_digit(n: nat)
    ensures
        decimal_spec(n).len() > 0,
        !is_white_space(decimal_spec(n).last()),
        !decimal_spec(n).contains('\n'),
    decreases n,
{
    if n >= 10 {
        lemma_decimal_has_digit(n / 10);
        let d = decimal_spec(n / 10);
        assert(decimal_spec(n) == d.push(crate::text::digit_char(n % 10)));
        assert forall|k: int| 0 <= k < decimal_spec(n).len() implies decimal_spec(n)[k] != '\n' by {
            if k < d.len() {
                assert(decimal_spec(n)[k] == d[k]);
                assert(!d.contains('\n'));
            }
        }
    } else {
        assert forall|k: int| 0 <= k < decimal_spec(n).len() implies decimal_spec(n)[k] != '\n' by {}
    }
}

/// The lines of `s`: the pieces between newline characters, in order (a
/// text that ends with a newline has an empty last piece).
pub open spec fn split_lines(s: Seq<char>) -> Seq<Seq<char>>
    decreases s.len(),
{
    if s.len() == 0 {
        seq![Seq::<char>::empty()]
    } else {
        let p = split_lines(s.drop_last());
        if s.last() == '\n' {
            p.push(Seq::<char>::empty())
        } else {
            p.update(p.len() - 1, p.last().push(s.last()))
        }
    }
}

proof fn lemma_split_lines_nonempty(s: Seq<char>)
    ensures
        split_lines(s).len() > 0,
    decreases s.len(),
{
    if s.len() > 0 {
        lemma_split_lines_nonempty(s.drop_last());
    }
}

proof fn lemma_split_lines_append(a: Seq<char>, t: Seq<char>)
    requires
        forall|i: int| 0 <= i < t.len() ==> t[i] != '\n',
    ensures
        split_lines(a + t) == split_lines(a).update(
            split_lines(a).len() - 1,
            split_lines(a).last() + t,
        ),
    decreases t.len(),
{
    lemma_split_lines_nonempty(a);
    let l = split_lines(a);
    if t.len() == 0 {
        assert(a + t =~= a);
        assert(l.last() + t =~= l.last());
        assert(l.update(l.len() - 1, l.last()) =~= l);
    } else {
        let u = t.drop_last();
        assert forall|i: int| 0 <= i < u.len() implies u[i] != '\n' by {
            assert(u[i] == t[i]);
        }
        lemma_split_lines_append(a, u);
        assert((a + t).drop_last() =~= a + u);
        assert((a + t).last() == t[t.len() - 1]);
        let p = split_lines(a + u);
        assert(p.len() == l.len());
        assert(p.last() == l.last() + u);
        assert((l.last() + u).push(t.last()) =~= l.last() + t);
        assert(p.update(p.len() - 1, p.last().push(t.last())) =~= l.update(
            l.len() - 1,
            l.last() + t,
        ));
    }
}

/// Line `i` of `tokens.txt` holds token `i`, a space and the decimal number
/// `i`, for every token (given that no token holds a newline); after the
/// last token's line the text ends.
pub proof fn law_tokens_txt_lines(tokens: Seq<Seq<char>>)
    requires
        forall|i: int| 0 <= i < tokens.len() ==> !(#[trigger] tokens[i]).contains('\n'),
    ensures
        split_lines(tokens_txt_spec(tokens)).len() == tokens.len() + 1,
        forall|i: int|
            0 <= i < tokens.len() ==> #[trigger] split_lines(tokens_txt_spec(tokens))[i]
                == tokens[i] + seq![' '] + decimal_spec(i as nat),
        split_lines(tokens_txt_spec(tokens)).last() == Seq::<char>::empty(),
    decreases tokens.len(),
{
    if tokens.len() == 0 {
        assert(tokens_txt_spec(tokens) == Seq::<char>::empty());
    } else {
        let n = tokens.len() - 1;
        let init = tokens.drop_last();
        assert forall|i: int| 0 <= i < init.len() implies !(#[trigger] init[i]).contains('\n') by {
            assert(init[i] == tokens[i]);
        }
        law_tokens_txt_lines(init);
        let a = tokens_txt_spec(init);
        let l = split_lines(a);
        lemma_decimal_has_digit(n as nat);
        let d = decimal_spec(n as nat);
        let tok = tokens.last();
        assert(tok == tokens[n]);
        let t = tok + seq![' '] + d;
        assert forall|i: int| 0 <= i < t.len() implies t[i] != '\n' by {
            if i < tok.len() {
                assert(t[i] == tok[i]);
                if tok[i] == '\n' {
                    assert(tok.contains('\n'));
                }
            } else if i > tok.len() {
                assert(t[i] == d[i - tok.len() - 1]);
                if d[i - tok.len() - 1] == '\n' {
                    assert(d.contains('\n'));
                }
            }
        }
        lemma_split_lines_append(a, t);
        let whole = tokens_txt_spec(tokens);
        assert(whole =~= (a + t).push('\n'));
        assert(whole.drop_last() =~= a + t);
        assert(split_lines(whole) == split_lines(a + t).push(Seq::<char>::empty()));
        assert(l.last() + t =~= t);
        assert forall|i: int| 0 <= i < tokens.len() implies #[trigger] split_lines(whole)[i]
            == tokens[i] + seq![' '] + decimal_spec(i as nat) by {
            if i < n {
                assert(init[i] == tokens[i]);
                assert(split_lines(whole)[i] == l[i]);
            }
        }
    }
}

/// A `tokens.txt` written for tokens that hold no newline is read back as
/// one non-blank line per token.
pub proof fn law_tokens_txt_round_trip(tokens: Seq<Seq<char>>)
    requires
        forall|i: int| 0 <= i < tokens.len() ==> !(#[trigger] tokens[i]).contains('\n'),
    ensures
        nonblank_line_count(tokens_txt_spec(tokens)) == tokens.len(),
        !open_line_has_word(tokens_txt_spec(tokens)),
    decreases tokens.len(),
{
    if tokens.len() > 0 {
        let init = tokens.drop_last();
        assert forall|i: int| 0 <= i < init.len() implies !(#[trigger] init[i]).contains('\n') by {
            assert(init[i] == tokens[i]);
        }
        law_tokens_txt_round_trip(init);
        let n = (tokens.len() - 1) as nat;
        let d = decimal_spec(n);
        lemma_decimal_has_digit(n);
        let line = tokens.last() + seq![' '] + d;
        assert(tokens.last() == tokens[tokens.len() - 1]);
        assert(!line.contains('\n')) by {
            if line.contains('\n') {
                let k = choose|k: int| 0 <= k < line.len() && line[k] == '\n';
                if k < tokens.last().len() {
                    assert(tokens.last()[k] == '\n');
                } else if k == tokens.last().len() {
                } else {
                    assert(d[k - tokens.last().len() - 1] == '\n');
                }
            }
        }
        let prev = tokens_txt_spec(init);
        lemma_open_line_appended(prev, line);
        assert(line[line.len() - 1] == d.last());
        assert(tokens_txt_spec(tokens) == (prev + line).push('\n')) by {
            assert(tokens_txt_spec(tokens) == prev + tokens.last() + seq![' '] + d + seq!['\n']);
            assert(prev + tokens.last() + seq![' '] + d + seq!['\n'] =~= (prev + line).push('\n'));
        }
        let whole = (prev + line).push('\n');
        assert(whole.drop_last() == prev + line);
    }
}

// ------------------------------------------------------------ tokens.json

/// What `serde_json` reads from `text` as a JSON array of strings, or
/// `None` when `text` is not one.
pub uninterp spec fn json_string_array(text: Seq<char>) -> Option<Seq<Seq<char>>>;

/// `serde_json::from_str::<Vec<String>>`: parses a JSON array of strings.
/// Claims that it succeeds exactly when `json_string_array` gives a list,
/// and then returns that list; what the list is for a given text is left
/// to `serde_json` and not stated.
#[verifier::external_body]
fn json_parse_string_array(text: &str) -> (r: Result<Vec<String>, serde_json::Error>)
    ensures
        r is Ok <==> json_string_array(text@) is Some,
        r is Ok ==> r->Ok_0.deep_view() == json_string_array(text@)->0,
{
    serde_json::from_str::<Vec<String>>(text)
}

pub open spec fn tokens_json_error_prefix(path: Seq<char>) -> Seq<char> {
    "解析 `"@ + path + "` 失败，预期为字符串数组。: "@
}

/// The tokens listed in the content of `tokens.json` (read from `path`).
pub fn parse_tokens_json(path: &str, content: &str) -> (r: Result<Vec<String>, String>)
    ensures
        r is Ok <==> json_string_array(content@) is Some,
        r is Ok ==> r->Ok_0.deep_view() == json_string_array(content@)->0,
        r is Err ==> tokens_json_error_prefix(path@).len() <= r->Err_0@.len()
            && r->Err_0@.take(tokens_json_error_prefix(path@).len() as int)
            == tokens_json_error_prefix(path@),
{
    match json_parse_string_array(content) {
        Ok(tokens) => Ok(tokens),
        Err(e) => {
            let mut m = String::from_str("解析 `");
            m.append(path);
            m.append("` 失败，预期为字符串数组。: ");
            let ghost prefix = m@;
            let detail = json_error_text(&e);
            m.append(detail.as_str());
            assert(m@.take(prefix.len() as int) =~= prefix);
            Err(m)
        },
    }
}

pub open spec fn empty_tokens_message() -> Seq<char> {
    "`tokens.json` 为空，无法生成 `tokens.txt`。"@
}

/// The `tokens.txt` content for a legacy directory; an empty token list is refused.
pub fn legacy_tokens_txt(tokens: &Vec<String>) -> (r: Result<String, String>)
    ensures
        tokens@.len() == 0 <==> r is Err,
        r is Err ==> r->Err_0@ == empty_tokens_message(),
        r is Ok ==> r->Ok_0@ == tokens_txt_spec(tokens.deep_view()),
{
    if tokens.len() == 0 {
        Err(String::from_str("`tokens.json` 为空，无法生成 `tokens.txt`。"))
    } else {
        Ok(tokens_txt_content(tokens))
    }
}

/// Whether `tokens.txt` has to be (re)written: when it cannot be read or
/// differs from the wanted content.
pub fn tokens_txt_needs_write(existing: &Option<String>, wanted: &String) -> (b: bool)
    ensures
        b == match existing {
            Some(e) => e@ != wanted@,
            None => true,
        },
{
    match existing {
        Some(e) => !(*e == *wanted),
        None => true,
    }
}

// ------------------------------------------------------------ load errors

pub open spec fn missing_metadata_marker() -> Seq<char> {
    "Missing required metadata key: vocab_size"@
}

pub open spec fn missing_metadata_message(model_dir: Seq<char>) -> Seq<char> {
    "已生成 `tokens.txt`，但当前 `model.onnx` 缺少 `vocab_size` 等 ONNX metadata。这说明 `"@
        + model_dir
        + "` 里的模型更接近 FunASR 原始导出，不是 `transcribe-rs` 当前可直接加载的 SenseVoice 目录。下一步需要把它转换成 sherpa/transcribe-rs 兼容导出，或改走 FunASR 官方 runtime。"@
}

pub open spec fn load_failure_message(model_dir: Seq<char>, error_text: Seq<char>) -> Seq<char> {
    "`transcribe-rs` 无法加载 `"@ + model_dir + "`: "@ + error_text
}

/// The explanation given when the engine refuses to load a model directory.
pub fn load_error_message(model_dir: &str, error_text: &str) -> (r: String)
    ensures
        crate::text::contains_spec(error_text@, missing_metadata_marker()) ==> r@
            == missing_metadata_message(model_dir@),
        !crate::text::contains_spec(error_text@, missing_metadata_marker()) ==> r@
            == load_failure_message(model_dir@, error_text@),
{
    if crate::text::contains(error_text, "Missing required metadata key: vocab_size") {
        let mut m = String::from_str(
            "已生成 `tokens.txt`，但当前 `model.onnx` 缺少 `vocab_size` 等 ONNX metadata。这说明 `",
        );
        m.append(model_dir);
        m.append(
            "` 里的模型更接近 FunASR 原始导出，不是 `transcribe-rs` 当前可直接加载的 SenseVoice 目录。下一步需要把它转换成 sherpa/transcribe-rs 兼容导出，或改走 FunASR 官方 runtime。",
        );
        m
    } else {
        let mut m = String::from_str("`transcribe-rs` 无法加载 `");
        m.append(model_dir);
        m.append("`: ");
        m.append(error_text);
        m
    }
}

} // verus!
