use std::collections::hash_map::DefaultHasher;
use std::hash::{Hash, Hasher};
use std::path::Path;
use std::time::Instant;
use vstd::prelude::*;
use vstd::std_specs::hash::DefaultHasherAdditionalSpecFns;
use vstd::string::StringExecFns;

verus! {

/// WGSL preamble prepended to user shaders.
/// Provides iResolution and iTime uniforms compatible with cosmic-bg shaders.
pub const WGSL_PREAMBLE: &'static str = "
// cosmic-bg live wallpaper uniforms
@group(0) @binding(0) var<uniform> iResolution: vec2f;
@group(0) @binding(1) var<uniform> iTime: f32;
";

/// The language a background shader is written in.
#[derive(Clone, Copy, Debug, PartialEq, Eq, Structural)]
pub enum ShaderLanguage {
    Wgsl,
    Glsl,
}

/// Where the code of a background shader comes from.
#[derive(Clone, Debug)]
pub enum ShaderContent {
    /// A file holding the code.
    Path(String),
    /// The code itself.
    Code(String),
}

/// A background shader as the background configuration names it.
#[derive(Clone, Debug)]
pub struct ShaderSource {
    pub shader: ShaderContent,
    pub language: ShaderLanguage,
}

/// Error when loading or compiling a shader.
#[derive(Debug)]
pub enum ShaderError {
    /// Reading the shader file failed; the text of the I/O error.
    Io(String),
    UnsupportedLanguage(ShaderLanguage),
    Compilation(String),
}


/// The name that `{:?}` gives a language.
pub open spec fn language_name(language: ShaderLanguage) -> Seq<char> {
    match language {
        ShaderLanguage::Wgsl => "Wgsl"@,
        ShaderLanguage::Glsl => "Glsl"@,
    }
}

impl ShaderLanguage {
    /// The name of the language, as `{:?}` writes it.
    pub fn name(&self) -> (name: String)
        ensures
            name@ == language_name(*self),
    {
        match self {
            ShaderLanguage::Wgsl => String::from_str("Wgsl"),
            ShaderLanguage::Glsl => String::from_str("Glsl"),
        }
    }
}

/// The text of an error, as it is displayed.
pub open spec fn error_message(error: ShaderError) -> Seq<char> {
    match error {
        ShaderError::Io(e) => "Failed to read shader file: "@ + e@,
        ShaderError::UnsupportedLanguage(lang) => "Unsupported shader language: "@ + language_name(
            lang,
        ),
        ShaderError::Compilation(msg) => "Shader compilation failed: "@ + msg@,
    }
}

impl ShaderError {
    /// The text of the error, as it is displayed.
    pub fn message(&self) -> (text: String)
        ensures
            text@ == error_message(*self),
    {
        match self {
            ShaderError::Io(e) => String::from_str("Failed to read shader file: ").concat(e.as_str()),
            ShaderError::UnsupportedLanguage(lang) => {
                let name = lang.name();
                String::from_str("Unsupported shader language: ").concat(name.as_str())
            },
            ShaderError::Compilation(msg) => String::from_str("Shader compilation failed: ").concat(
                msg.as_str(),
            ),
        }
    }
}

// ---------------------------------------------------------------------------
// Language detection

/// What `std::path::Path::extension` gives for a path: the part of its file name
/// after the last `.`, if any.
pub uninterp spec fn path_extension_of(path: Seq<char>) -> Option<Seq<char>>;

/// Calls `std::path::Path::extension` on `path`.
/// Trusted: the result is what `path_extension_of` names for the path; the extension of a
/// path given as UTF-8 is UTF-8 itself, so the conversion to `String` loses nothing.
#[verifier::external_body]
fn path_extension(path: &str) -> (extension: Option<String>)
    ensures
        extension is None <==> path_extension_of(path@) is None,
        extension matches Some(e) ==> path_extension_of(path@) == Some(e@),
{
    match Path::new(path).extension() {
        Some(e) => Some(e.to_string_lossy().into_owned()),
        None => None,
    }
}

/// Whether a file extension marks a GLSL shader.
pub open spec fn is_glsl_extension(extension: Seq<char>) -> bool {
    extension == "glsl"@ || extension == "frag"@
}

/// The language of a shader file with `extension`, declared to be in `declared`.
pub open spec fn language_for_extension_spec(
    extension: Option<Seq<char>>,
    declared: ShaderLanguage,
) -> ShaderLanguage {
    match extension {
        Some(e) => if is_glsl_extension(e) {
            ShaderLanguage::Glsl
        } else {
            declared
        },
        None => declared,
    }
}

/// The language of a shader file whose path has `extension`: GLSL for `glsl` and
/// `frag`, else the declared language.
pub fn language_for_extension(extension: Option<String>, declared: ShaderLanguage) -> (language:
    ShaderLanguage)
    ensures
        language == language_for_extension_spec(
            match extension {
                Some(e) => Some(e@),
                None => None,
            },
            declared,
        ),
        extension is None ==> language == declared,
        extension matches Some(e) && (e@ == "glsl"@ || e@ == "frag"@) ==> language
            == ShaderLanguage::Glsl,
        extension matches Some(e) && e@ != "glsl"@ && e@ != "frag"@ ==> language == declared,
{
    match extension {
        Some(e) => {
            let glsl = String::from_str("glsl");
            let frag = String::from_str("frag");
            if e == glsl || e == frag {
                ShaderLanguage::Glsl
            } else {
                declared
            }
        },
        None => declared,
    }
}

/// The language that `detect_language` finds for a source.
pub open spec fn detected_language(source: ShaderSource) -> ShaderLanguage {
    match source.shader {
        ShaderContent::Path(path) => language_for_extension_spec(
            path_extension_of(path@),
            source.language,
        ),
        ShaderContent::Code(_) => source.language,
    }
}

/// Detect shader language from source.
pub fn detect_language(source: &ShaderSource) -> (language: ShaderLanguage)
    ensures
        language == detected_language(*source),
{
    match &source.shader {
        ShaderContent::Path(path) => language_for_extension(
            path_extension(path.as_str()),
            source.language,
        ),
        ShaderContent::Code(_) => source.language,
    }
}

// ---------------------------------------------------------------------------
// Loading

/// The shader code that is compiled for user code `code`: the preamble, a line
/// break, then the code.
pub open spec fn with_preamble(code: Seq<char>) -> Seq<char> {
    WGSL_PREAMBLE@ + "\n"@ + code
}

/// The user code of a source: the code itself, or what reading its file gave.
pub open spec fn source_code(source: ShaderSource, file_text: Option<Result<String, String>>) -> Result<
    Seq<char>,
    ShaderError,
> {
    match source.shader {
        ShaderContent::Code(code) => Ok(code@),
        ShaderContent::Path(_) => match file_text.unwrap() {
            Ok(text) => Ok(text@),
            Err(e) => Err(ShaderError::Io(e)),
        },
    }
}


/// What `load_shader_code` gives for a source and the outcome of reading its file.
pub open spec fn loaded_shader_code(
    source: ShaderSource,
    file_text: Option<Result<String, String>>,
) -> Result<Seq<char>, ShaderError> {
    match source_code(source, file_text) {
        Err(e) => Err(e),
        Ok(code) => if detected_language(source) == ShaderLanguage::Glsl {
            Err(ShaderError::UnsupportedLanguage(ShaderLanguage::Glsl))
        } else {
            Ok(with_preamble(code))
        },
    }
}

/// The file whose text `load_shader_code` needs for `source`: its path, when the
/// source names a file rather than holding the code.
pub fn shader_file(source: &ShaderSource) -> (path: Option<&String>)
    ensures
        path is Some <==> source.shader is Path,
        path matches Some(p) ==> source.shader == ShaderContent::Path(*p),
{
    match &source.shader {
        ShaderContent::Path(path) => Some(path),
        ShaderContent::Code(_) => None,
    }
}

/// Load and prepare shader code with preamble.
///
/// `file_text` is what reading the file that `shader_file` names gave: the file's text,
/// or the text of the I/O error. A source that holds its code reads no file.
pub fn load_shader_code(source: &ShaderSource, file_text: Option<Result<String, String>>) -> (code:
    Result<String, ShaderError>)
    requires
        source.shader is Path ==> file_text is Some,
    ensures
        match code {
            Ok(c) => loaded_shader_code(*source, file_text) == Ok::<Seq<char>, ShaderError>(c@),
            Err(e) => loaded_shader_code(*source, file_text) == Err::<Seq<char>, ShaderError>(e),
        },
{
    let shader_code = match &source.shader {
        ShaderContent::Path(_) => match file_text {
            Some(Ok(text)) => text,
            Some(Err(e)) => {
                return Err(ShaderError::Io(e));
            },
            None => {
                return Err(ShaderError::Io(String::new()));
            },
        },
        ShaderContent::Code(code) => code.clone(),
    };

    let language = detect_language(source);
    if language == ShaderLanguage::Glsl {
        return Err(ShaderError::UnsupportedLanguage(ShaderLanguage::Glsl));
    }
    let mut combined = String::from_str(WGSL_PREAMBLE);
    combined.append("\n");
    combined.append(shader_code.as_str());
    Ok(combined)
}

// ---------------------------------------------------------------------------
// Change detection

/// The writes that `<str as Hash>::hash` makes into a `DefaultHasher` whose
/// writes so far are `state`: the hasher's writes afterwards.
pub uninterp spec fn str_hash_writes(state: Seq<Seq<u8>>, code: Seq<char>) -> Seq<Seq<u8>>;

/// Feeds `code` to `hasher` through std's `<str as Hash>::hash`.
/// Trusted: the hasher's writes afterwards are what `str_hash_writes` names for its
/// writes before and the string; which bytes std writes is not stated.
#[verifier::external_body]
fn hash_str_into(code: &str, hasher: &mut DefaultHasher)
    ensures
        final(hasher)@ == str_hash_writes(old(hasher)@, code@),
{
    code.hash(hasher);
}

/// The hash that `hash_shader_code` gives for `code`.
pub open spec fn shader_code_hash(code: Seq<char>) -> u64 {
    DefaultHasher::spec_finish(str_hash_writes(Seq::empty(), code))
}

/// Compute a simple hash of shader code for change detection.
pub fn hash_shader_code(code: &str) -> (hash: u64)
    ensures
        hash == shader_code_hash(code@),
        hash == DefaultHasher::spec_finish(str_hash_writes(Seq::empty(), code@)),
{
    let mut hasher = DefaultHasher::new();
    hash_str_into(code, &mut hasher);
    hasher.finish()
}

/// What a frame's `prepare` does next.
#[derive(Clone, Copy, Debug, PartialEq, Eq, Structural)]
pub enum PrepareStep {
    /// Build a pipeline for the frame's shader code and store it, under this hash.
    CreatePipeline { shader_hash: u64 },
    /// Write the frame's time and resolution into the stored pipeline.
    UpdateUniforms,
    /// Leave the frame without uniforms: no pipeline could be built.
    Stop,
}

/// The step for a frame whose shader code hashes to `current_hash`, when the stored
/// pipeline (if any) was built for code hashing to `stored_hash`.
pub open spec fn step_for_hash_spec(stored_hash: Option<u64>, current_hash: u64) -> PrepareStep {
    if stored_hash == Some(current_hash) {
        PrepareStep::UpdateUniforms
    } else {
        PrepareStep::CreatePipeline { shader_hash: current_hash }
    }
}

/// The step that `plan_prepare` chooses.
pub open spec fn planned_step(stored_hash: Option<u64>, code: Seq<char>) -> PrepareStep {
    step_for_hash_spec(stored_hash, shader_code_hash(code))
}

/// Decides whether a frame needs a new pipeline, from the hash of its shader code: when
/// none is stored yet (`stored_hash` is `None`) or the stored one was built for code with
/// another hash.
pub fn step_for_hash(stored_hash: Option<u64>, current_hash: u64) -> (step: PrepareStep)
    ensures
        step == step_for_hash_spec(stored_hash, current_hash),
{
    let needs_new_pipeline = match stored_hash {
        Some(existing) => existing != current_hash,
        None => true,
    };
    if needs_new_pipeline {
        PrepareStep::CreatePipeline { shader_hash: current_hash }
    } else {
        PrepareStep::UpdateUniforms
    }
}

/// Decides whether a frame needs a new pipeline: when none is stored yet
/// (`stored_hash` is `None`) or the stored one was built for other shader code.
pub fn plan_prepare(stored_hash: Option<u64>, shader_code: &str) -> (step: PrepareStep)
    ensures
        step == planned_step(stored_hash, shader_code@),
{
    let current_hash = hash_shader_code(shader_code);
    step_for_hash(stored_hash, current_hash)
}

/// The step after trying to build a pipeline: update it when it was built and stored,
/// stop the frame when building failed.
pub fn after_pipeline_creation(created: bool) -> (step: PrepareStep)
    ensures
        step == (if created {
            PrepareStep::UpdateUniforms
        } else {
            PrepareStep::Stop
        }),
{
    if created {
        PrepareStep::UpdateUniforms
    } else {
        PrepareStep::Stop
    }
}

// ---------------------------------------------------------------------------
// The program

#[verifier::external_type_specification]
#[verifier::external_body]
pub struct ExInstant(Instant);

/// Calls `std::time::Instant::now`. Trusted for nothing: the instant depends on the clock.
#[verifier::external_body]
fn instant_now() -> Instant {
    Instant::now()
}

/// A shader program for rendering background shaders.
pub struct BackgroundShaderProgram {
    shader_code: String,
    start_time: Instant,
}

impl View for BackgroundShaderProgram {
    type V = Seq<char>;

    /// The shader code the program draws with.
    closed spec fn view(&self) -> Seq<char> {
        self.shader_code@
    }
}

impl Clone for BackgroundShaderProgram {
    fn clone(&self) -> (copy: Self)
        ensures
            copy == *self,
    {
        BackgroundShaderProgram { shader_code: self.shader_code.clone(), start_time: self.start_time }
    }
}

impl BackgroundShaderProgram {
    /// Create a new background shader program from a shader source.
    ///
    /// Returns `None` if the shader cannot be loaded (file not read, GLSL).
    /// `file_text` is as for `load_shader_code`.
    pub fn new(source: &ShaderSource, file_text: Option<Result<String, String>>) -> (program: Option<
        Self,
    >)
        requires
            source.shader is Path ==> file_text is Some,
        ensures
            program is Some <==> loaded_shader_code(*source, file_text) is Ok,
            program matches Some(p) ==> loaded_shader_code(*source, file_text) == Ok::<
                Seq<char>,
                ShaderError,
            >(p@),
    {
        match load_shader_code(source, file_text) {
            Ok(shader_code) => Some(BackgroundShaderProgram { shader_code, start_time: instant_now() }),
            Err(_) => None,
        }
    }

    /// Reassembles a program from its shader code and start time.
    pub fn from_parts(shader_code: String, start_time: Instant) -> (program: Self)
        ensures
            program@ == shader_code@,
            program.start_time() == start_time,
    {
        BackgroundShaderProgram { shader_code, start_time }
    }

    /// The shader code the program draws with.
    pub fn shader_code(&self) -> (code: &str)
        ensures
            code@ == self@,
    {
        self.shader_code.as_str()
    }

    /// When the program was created; frame times count from here.
    pub closed spec fn spec_start_time(&self) -> Instant {
        self.start_time
    }

    #[verifier::when_used_as_spec(spec_start_time)]
    pub fn start_time(&self) -> (t: Instant)
        ensures
            t == self.spec_start_time(),
    {
        self.start_time
    }
}


// ---------------------------------------------------------------------------
// Laws

/// A shader found to be GLSL, whatever its file holds, is never loaded: the error is
/// the file's read error or the unsupported language.
pub proof fn law_glsl_never_loads(source: ShaderSource, file_text: Option<Result<String, String>>)
    requires
        detected_language(source) == ShaderLanguage::Glsl,
    ensures
        loaded_shader_code(source, file_text) is Err,
        source_code(source, file_text) is Ok ==> loaded_shader_code(source, file_text) == Err::<
            Seq<char>,
            ShaderError,
        >(ShaderError::UnsupportedLanguage(ShaderLanguage::Glsl)),
{
}

/// A file whose extension is `glsl` or `frag` is GLSL, whatever language it is
/// declared in.
pub proof fn law_glsl_extension_wins(source: ShaderSource, path: String)
    requires
        source.shader == ShaderContent::Path(path),
        path_extension_of(path@) matches Some(e) && is_glsl_extension(e),
    ensures
        detected_language(source) == ShaderLanguage::Glsl,
{
}

/// Inline code is detected as the language it is declared in.
pub proof fn law_inline_code_keeps_declared_language(source: ShaderSource)
    requires
        source.shader is Code,
    ensures
        detected_language(source) == source.language,
{
}

/// Loaded shader code begins with the WGSL preamble and a line break, and ends with
/// the user's code, unchanged.
pub proof fn law_loaded_code_is_preamble_then_code(
    source: ShaderSource,
    file_text: Option<Result<String, String>>,
)
    requires
        loaded_shader_code(source, file_text) is Ok,
    ensures
        source_code(source, file_text) is Ok,
        ({
            let loaded = loaded_shader_code(source, file_text)->Ok_0;
            let code = source_code(source, file_text)->Ok_0;
            &&& loaded.len() == WGSL_PREAMBLE@.len() + "\n"@.len() + code.len()
            &&& loaded.subrange(0, WGSL_PREAMBLE@.len() as int) == WGSL_PREAMBLE@
            &&& loaded.subrange(loaded.len() - code.len(), loaded.len() as int) == code
        }),
{
    let loaded = loaded_shader_code(source, file_text)->Ok_0;
    let code = source_code(source, file_text)->Ok_0;
    assert(loaded.subrange(0, WGSL_PREAMBLE@.len() as int) =~= WGSL_PREAMBLE@);
    assert(loaded.subrange(loaded.len() - code.len(), loaded.len() as int) =~= code);
}

/// Inline WGSL code always loads, as the preamble followed by the code.
pub proof fn law_inline_wgsl_loads(
    source: ShaderSource,
    code: String,
    file_text: Option<Result<String, String>>,
)
    requires
        source.shader == ShaderContent::Code(code),
        source.language == ShaderLanguage::Wgsl,
    ensures
        loaded_shader_code(source, file_text) == Ok::<Seq<char>, ShaderError>(
            with_preamble(code@),
        ),
{
}

/// The first frame of a shader builds its pipeline.
pub proof fn law_first_frame_builds_pipeline(code: Seq<char>)
    ensures
        planned_step(None, code) == (PrepareStep::CreatePipeline {
            shader_hash: shader_code_hash(code),
        }),
{
}

/// A pipeline built for some shader code is reused for that code: once the pipeline
/// is stored under the hash that the plan gave, the next frame of the same code only
/// updates its uniforms.
pub proof fn law_pipeline_reused_for_same_code(stored_hash: Option<u64>, code: Seq<char>)
    ensures
        match planned_step(stored_hash, code) {
            PrepareStep::CreatePipeline { shader_hash } => planned_step(Some(shader_hash), code)
                == PrepareStep::UpdateUniforms,
            _ => true,
        },
{
}

/// A stored pipeline is rebuilt when the shader code changed, that is, when its hash
/// is not the hash of the frame's code.
pub proof fn law_changed_code_rebuilds(stored_hash: u64, code: Seq<char>)
    requires
        stored_hash != shader_code_hash(code),
    ensures
        planned_step(Some(stored_hash), code) == (PrepareStep::CreatePipeline {
            shader_hash: shader_code_hash(code),
        }),
{
}

/// The plan never stops a frame; only a failed pipeline build does.
pub proof fn law_plan_never_stops(stored_hash: Option<u64>, code: Seq<char>)
    ensures
        planned_step(stored_hash, code) != PrepareStep::Stop,
{
}


/// Only a `glsl` or `frag` extension changes a shader's language: with no extension, or
/// any other one, the declared language stands; with one of those two, it is GLSL.
pub proof fn law_only_glsl_extensions_change_language(
    extension: Option<Seq<char>>,
    declared: ShaderLanguage,
)
    ensures
        language_for_extension_spec(extension, declared) != declared ==> extension == Some(
            "glsl"@,
        ) || extension == Some("frag"@),
        extension == Some("glsl"@) ==> language_for_extension_spec(extension, declared)
            == ShaderLanguage::Glsl,
        extension == Some("frag"@) ==> language_for_extension_spec(extension, declared)
            == ShaderLanguage::Glsl,
        language_for_extension_spec(extension, declared) == ShaderLanguage::Glsl
            || language_for_extension_spec(extension, declared) == declared,
{
}

/// A file source keeps its declared language unless its extension is `glsl` or `frag`.
pub proof fn law_other_extensions_keep_declared_language(source: ShaderSource, path: String)
    requires
        source.shader == ShaderContent::Path(path),
        path_extension_of(path@) != Some("glsl"@),
        path_extension_of(path@) != Some("frag"@),
    ensures
        detected_language(source) == source.language,
{
}

/// The change-detection hash is `DefaultHasher`'s finish after the whole shader code is
/// hashed into a fresh hasher: every character of the code goes into it.
pub proof fn law_hash_covers_whole_code(code: Seq<char>)
    ensures
        shader_code_hash(code) == DefaultHasher::spec_finish(str_hash_writes(Seq::empty(), code)),
        forall|other: Seq<char>|
            str_hash_writes(Seq::empty(), other) == str_hash_writes(Seq::empty(), code)
                ==> #[trigger] shader_code_hash(other) == shader_code_hash(code),
{
}

} // verus!
