use vstd::prelude::*;

use crate::compile::CompilePhase;
use crate::compile::CompileSession;
use crate::shader::Error;
use crate::shader::ShaderProgram;

verus! {

/// The result of the most recent attempt to load and compile a fragment
/// program.  Created as `NotProvided`; every later value comes from a load.
/// A failed load intentionally drops to "no program" rather than keeping
/// the previous program alive, so the user sees unambiguous feedback.
pub enum ReloadedShader {
    /// No source file has ever been supplied.
    NotProvided,
    /// The active, drawable program.
    Shader(ShaderProgram),
    /// The most recent load could not read the source file.
    FileReadingError(String),
    /// The file was read but a pipeline stage rejected it; the diagnostic
    /// log is retained.
    ShaderError(Error),
}

/// The state a compile verdict maps to: the collaborator's accepted
/// program becomes the active shader, its rejection log becomes the
/// compile-error state.
pub open spec fn spec_from_compile(compile: Result<u32, String>) -> ReloadedShader {
    match compile {
        Ok(p) => ReloadedShader::Shader(ShaderProgram(p)),
        Err(log) => ReloadedShader::ShaderError(Error::ShaderCompilationError(log)),
    }
}

/// The state a whole load attempt maps to: a failed read surfaces as
/// `FileReadingError` without any compile verdict; a successful read is
/// judged by the compile verdict alone.
pub open spec fn spec_from_file(read: Result<String, String>, compile: Option<Result<u32, String>>) -> ReloadedShader {
    match (read, compile) {
        (Err(e), _) => ReloadedShader::FileReadingError(e),
        (Ok(_), Some(c)) => spec_from_compile(c),
        (Ok(_), None) => ReloadedShader::NotProvided,
    }
}

impl Default for ReloadedShader {
    /// Before any load: no source has been supplied.
    fn default() -> (s: ReloadedShader)
        ensures
            s is NotProvided,
    {
        ReloadedShader::NotProvided
    }
}

impl ReloadedShader {
    /// The active program, if the last load compiled.
    pub fn as_shader(&self) -> (r: Option<&ShaderProgram>)
        ensures
            r is Some <==> self is Shader,
            r matches Some(p) ==> self matches ReloadedShader::Shader(q) && *p == q,
    {
        if let ReloadedShader::Shader(program) = &self {
            Some(program)
        } else {
            None
        }
    }

    /// The state for the built-in example fragment source, judged by the
    /// collaborator's verdict on it.
    pub fn example_shader(compile: Result<u32, String>) -> (s: ReloadedShader)
        ensures
            s == spec_from_compile(compile),
    {
        Self::from_str(compile)
    }

    /// The state for a fragment source that was already in hand: the fixed
    /// vertex stage was compiled together with it and `compile` is the
    /// collaborator's verdict.
    pub fn from_str(compile: Result<u32, String>) -> (s: ReloadedShader)
        ensures
            s == spec_from_compile(compile),
    {
        match compile {
            Ok(p) => ReloadedShader::Shader(ShaderProgram(p)),
            Err(log) => ReloadedShader::ShaderError(Error::ShaderCompilationError(log)),
        }
    }

    /// The state a finished compile session maps to: the session's verdict
    /// judged as `from_str` judges it.
    pub fn from_session(session: CompileSession) -> (s: ReloadedShader)
        requires
            session.phase is Done,
        ensures
            session.phase matches CompilePhase::Done(c) ==> s == spec_from_compile(c),
    {
        Self::from_str(session.finish())
    }

    /// The state for a whole load attempt: `read` is the attempt to read
    /// the source file as text, and `compile` is the collaborator's verdict
    /// on the text that was read, present exactly when the read succeeded.
    /// A failed read surfaces as `FileReadingError` without compiling.
    pub fn from_file(read: Result<String, String>, compile: Option<Result<u32, String>>) -> (s:
        ReloadedShader)
        requires
            (read is Ok) <==> (compile is Some),
        ensures
            s == spec_from_file(read, compile),
    {
        match read {
            Err(e) => ReloadedShader::FileReadingError(e),
            Ok(_) => match compile {
                Some(c) => Self::from_str(c),
                None => {
                    proof {
                        assert(false);
                    }
                    ReloadedShader::NotProvided
                },
            },
        }
    }

    /// The active program's handle, if the last load compiled.
    pub fn program_handle(&self) -> (r: Option<u32>)
        ensures
            match self {
                ReloadedShader::Shader(p) => r == Some(p.0),
                _ => r is None,
            },
    {
        match self {
            ReloadedShader::Shader(p) => Some(p.0),
            _ => None,
        }
    }

    /// The compile diagnostic, if the last load failed a pipeline stage.
    pub fn compile_log(&self) -> (r: Option<&String>)
        ensures
            r is Some <==> self is ShaderError,
            r matches Some(l) ==> self matches ReloadedShader::ShaderError(
                Error::ShaderCompilationError(log),
            ) && l@ == log@,
    {
        match self {
            ReloadedShader::ShaderError(Error::ShaderCompilationError(log)) => Some(log),
            _ => None,
        }
    }

    /// The read failure, if the last load could not read the file.
    pub fn read_error(&self) -> (r: Option<&String>)
        ensures
            r is Some <==> self is FileReadingError,
            r matches Some(e) ==> self matches ReloadedShader::FileReadingError(msg) && e@ == msg@,
    {
        match self {
            ReloadedShader::FileReadingError(msg) => Some(msg),
            _ => None,
        }
    }
}

/// The fixed vertex stage that every fragment program is linked with: it
/// spans the full-screen quad.
pub fn vertex_shader_source() -> (s: &'static str)
    ensures
        s@ == spec_vertex_shader_source(),
{
    "#version 330 core\nlayout (location = 0) in vec2 position;\nvoid main() {\n    gl_Position = vec4(position, 0, 1);\n}\n"
}

pub open spec fn spec_vertex_shader_source() -> Seq<char> {
    "#version 330 core\nlayout (location = 0) in vec2 position;\nvoid main() {\n    gl_Position = vec4(position, 0, 1);\n}\n"@
}

/// The built-in example fragment source: a simple two-dimensional
/// gradient.
pub fn example_fragment_source() -> (s: &'static str)
    ensures
        s@ == spec_example_fragment_source(),
{
    "#version 330 core\nout vec4 color;\nuniform vec2 uResolution;\nvoid main() {\n    vec2 uv = gl_FragCoord.xy / uResolution;\n    color = vec4(uv, 0, 1);\n}\n"
}

pub open spec fn spec_example_fragment_source() -> Seq<char> {
    "#version 330 core\nout vec4 color;\nuniform vec2 uResolution;\nvoid main() {\n    vec2 uv = gl_FragCoord.xy / uResolution;\n    color = vec4(uv, 0, 1);\n}\n"@
}

} // verus!
