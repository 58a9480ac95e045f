use vstd::prelude::*;

use crate::file_watcher::FileWatcher;
use crate::plane_buffer::PlaneBuffer;
use crate::reloaded_shader::spec_from_file;
use crate::reloaded_shader::ReloadedShader;
use crate::shader::ShaderProgram;

verus! {

/// The graphics collaborator's handle for a uniform that a program does
/// not declare; binding to it is a silent no-op on the collaborator's
/// side, never an error.
pub const ABSENT_UNIFORM_LOCATION: i32 = -1;

/// The cached locations of the three well-known uniforms of the active
/// program.  A uniform the program does not declare resolves to the
/// absent sentinel.
#[derive(Clone, Copy, PartialEq, Eq, Structural, Debug)]
pub struct Uniforms {
    pub window_resolution: i32,
    pub mouse_position: i32,
    pub time: i32,
}

impl Default for Uniforms {
    /// Every location absent: the state while no program is active.
    fn default() -> (u: Uniforms)
        ensures
            u == spec_absent_uniforms(),
    {
        Uniforms {
            window_resolution: ABSENT_UNIFORM_LOCATION,
            mouse_position: ABSENT_UNIFORM_LOCATION,
            time: ABSENT_UNIFORM_LOCATION,
        }
    }
}

/// Every location absent.
pub open spec fn spec_absent_uniforms() -> Uniforms {
    Uniforms {
        window_resolution: ABSENT_UNIFORM_LOCATION as i32,
        mouse_position: ABSENT_UNIFORM_LOCATION as i32,
        time: ABSENT_UNIFORM_LOCATION as i32,
    }
}

impl Uniforms {
    /// The uniform table for a freshly linked program, from the locations
    /// the collaborator resolved for the three well-known names.
    pub fn init(window_resolution: i32, mouse_position: i32, time: i32) -> (u: Uniforms)
        ensures
            u.window_resolution == window_resolution,
            u.mouse_position == mouse_position,
            u.time == time,
    {
        Uniforms { window_resolution, mouse_position, time }
    }
}

/// The uniform name that carries the window resolution.
pub fn resolution_uniform_name() -> (s: &'static str)
    ensures
        s@ == "uResolution"@,
{
    "uResolution"
}

/// The uniform name that carries the mouse position.
pub fn mouse_uniform_name() -> (s: &'static str)
    ensures
        s@ == "uMouse"@,
{
    "uMouse"
}

/// The uniform name that carries the elapsed time.
pub fn time_uniform_name() -> (s: &'static str)
    ensures
        s@ == "uTime"@,
{
    "uTime"
}

/// The configuration supplied once at construction.
pub struct ShaderPlaygroundArgs {
    pub file: Option<String>,
    pub debouncer_ms: u32,
}

/// The one draw call a frame issues when a program is active: the program
/// and quad to bind, the cached uniform locations, and the values to bind
/// to them.  The mouse y value is flipped against the window height to
/// match the fragment stage's coordinate convention.
pub struct DrawCall {
    pub program: u32,
    pub vao: u32,
    pub uniforms: Uniforms,
    pub resolution: (u32, u32),
    pub mouse: (u32, u32),
    pub mouse_y_flipped: i64,
    pub time_ms: u64,
}

/// What one frame owes the graphics collaborator: the buffers are always
/// cleared; the quad is drawn exactly when a program is active.  When no
/// program is active the clear alone is presented: that is the graceful
/// degradation for a failed load.
pub struct FramePlan {
    pub draw: Option<DrawCall>,
}

/// The elapsed time since `origin_ms`, clamped at zero.
pub open spec fn spec_elapsed_ms(now_ms: u64, origin_ms: u64) -> u64 {
    if now_ms >= origin_ms {
        (now_ms - origin_ms) as u64
    } else {
        0u64
    }
}

/// The reload-orchestration engine, driven once per rendering frame by the
/// platform shell.  It owns the shader state machine, the cached uniform
/// table, the watch target and the frame state; the shell performs the
/// file reads, compiles and draw calls the engine decides on.
pub struct ShaderPlayground {
    pub quit: bool,
    pub shader: ReloadedShader,
    pub plane: PlaneBuffer,
    pub uniforms: Uniforms,
    pub watcher: FileWatcher,
    pub time_origin_ms: u64,
    pub window_resolution: (u32, u32),
    pub mouse_position: (u32, u32),
    pub time_ms: u64,
}

/// How one load attempt changes the engine: the state machine takes the
/// load's result, the uniform table is rebuilt or emptied, the elapsed-time
/// origin resets to now, the handle of the superseded program (if one was
/// active) is handed back for release, and nothing else moves.
pub open spec fn spec_load_transition(
    pre: ShaderPlayground,
    post: ShaderPlayground,
    released: Option<u32>,
    read: Result<String, String>,
    compile: Option<Result<u32, String>>,
    locations: Option<(i32, i32, i32)>,
    now_ms: u64,
) -> bool {
    &&& post.shader == spec_from_file(read, compile)
    &&& post.time_origin_ms == now_ms
    &&& post.uniforms == (match locations {
        Some(l) => Uniforms { window_resolution: l.0, mouse_position: l.1, time: l.2 },
        None => spec_absent_uniforms(),
    })
    &&& released == (match pre.shader {
        ReloadedShader::Shader(p) => Some(p.0),
        _ => None::<u32>,
    })
    &&& post.quit == pre.quit
    &&& post.plane == pre.plane
    &&& post.watcher == pre.watcher
    &&& post.window_resolution == pre.window_resolution
    &&& post.mouse_position == pre.mouse_position
    &&& post.time_ms == pre.time_ms
}

impl ShaderPlayground {
    pub open spec fn wf(self) -> bool {
        self.watcher.wf()
    }

    /// At most one (directory, file) pair is watched.
    pub open spec fn single_target(self) -> bool {
        forall|d1: Seq<char>, f1: Seq<char>, d2: Seq<char>, f2: Seq<char>|
            #[trigger] self.watcher.watches(d1, f1) && #[trigger] self.watcher.watches(d2, f2)
                ==> d1 == d2 && f1 == f2
    }

    /// Construct the engine: no program yet, nothing watched, all
    /// uniforms absent, the clock origin at `now_ms`.  When the arguments
    /// name an initial file, the shell watches and loads it right after
    /// construction, so the watch failure can be logged as any other.
    /// Failure to create the change observer is fatal and is propagated.
    pub fn new(args: ShaderPlaygroundArgs, plane: PlaneBuffer, now_ms: u64) -> (r: Result<
        ShaderPlayground,
        String,
    >)
        ensures
            r matches Ok(s) ==> {
                &&& s.wf()
                &&& s.single_target()
                &&& forall|d: Seq<char>, f: Seq<char>| !s.watcher.watches(d, f)
                &&& forall|d: Seq<char>| !s.watcher.tracker.has_dir(d)
                &&& !s.quit
                &&& s.shader is NotProvided
                &&& s.uniforms == spec_absent_uniforms()
                &&& s.plane == plane
                &&& s.time_origin_ms == now_ms
                &&& s.window_resolution == (0u32, 0u32)
                &&& s.mouse_position == (0u32, 0u32)
                &&& s.time_ms == 0u64
            },
    {
        let watcher = match FileWatcher::new(args.debouncer_ms) {
            Ok(w) => w,
            Err(e) => {
                return Err(e);
            },
        };
        Ok(
            ShaderPlayground {
                quit: false,
                shader: ReloadedShader::NotProvided,
                plane,
                uniforms: Uniforms::default(),
                watcher,
                time_origin_ms: now_ms,
                window_resolution: (0, 0),
                mouse_position: (0, 0),
                time_ms: 0,
            },
        )
    }

    /// Switch the single watch target to `path`: every previous target is
    /// unwatched first, so at most one pair remains watched.  A failing
    /// watch leaves nothing watched rather than failing the engine; the
    /// result is returned so the caller can log it.
    pub fn watch_file(&mut self, path: &str) -> (r: Result<(), String>)
        requires
            old(self).wf(),
        ensures
            final(self).wf(),
            final(self).single_target(),
            r is Ok ==> (exists|d: Seq<char>, f: Seq<char>|
                #[trigger] final(self).watcher.watches(d, f)),
            r is Err ==> forall|d: Seq<char>, f: Seq<char>| !final(self).watcher.watches(d, f),
            final(self).quit == old(self).quit,
            final(self).shader == old(self).shader,
            final(self).plane == old(self).plane,
            final(self).uniforms == old(self).uniforms,
            final(self).time_origin_ms == old(self).time_origin_ms,
            final(self).window_resolution == old(self).window_resolution,
            final(self).mouse_position == old(self).mouse_position,
            final(self).time_ms == old(self).time_ms,
    {
        let _ = self.watcher.unwatch_all();
        let ghost cleared = self.watcher;
        let r = self.watcher.watch(path);
        proof {
            assert forall|d1: Seq<char>, f1: Seq<char>, d2: Seq<char>, f2: Seq<char>|
                #[trigger] self.watcher.watches(d1, f1) && #[trigger] self.watcher.watches(
                    d2,
                    f2,
                ) implies d1 == d2 && f1 == f2 by {
                if exists|d: Seq<char>, f: Seq<char>|
                    #[trigger] crate::file_watcher::watch_added(cleared, self.watcher, d, f) {
                    let (d0, f0) = choose|d: Seq<char>, f: Seq<char>|
                        #[trigger] crate::file_watcher::watch_added(cleared, self.watcher, d, f);
                    assert(!cleared.watches(d1, f1));
                    assert(!cleared.watches(d2, f2));
                }
            }
            if r is Ok {
                let (d0, f0) = choose|d: Seq<char>, f: Seq<char>|
                    #[trigger] crate::file_watcher::watch_added(cleared, self.watcher, d, f);
                assert(self.watcher.watches(d0, f0));
            }
        }
        r
    }

    /// Apply the result of a load attempt: `read` is the file read,
    /// `compile` the collaborator's verdict on the text read (present
    /// exactly when the read succeeded), `locations` the resolved uniform
    /// locations (present exactly when the compile succeeded).  Resets the
    /// elapsed-time origin to `now_ms` and returns the superseded
    /// program's handle, which the shell owes a release.
    pub fn load_shader(
        &mut self,
        read: Result<String, String>,
        compile: Option<Result<u32, String>>,
        locations: Option<(i32, i32, i32)>,
        now_ms: u64,
    ) -> (released: Option<u32>)
        requires
            (read is Ok) <==> (compile is Some),
            (compile matches Some(c) && c is Ok) <==> (locations is Some),
        ensures
            spec_load_transition(
                *old(self),
                *final(self),
                released,
                read,
                compile,
                locations,
                now_ms,
            ),
    {
        let released = match &self.shader {
            ReloadedShader::Shader(p) => Some(p.0),
            _ => None,
        };
        self.time_origin_ms = now_ms;
        self.shader = ReloadedShader::from_file(read, compile);
        self.uniforms = match locations {
            Some(l) => Uniforms::init(l.0, l.1, l.2),
            None => Uniforms::default(),
        };
        released
    }

    /// Whether the escape key asked the surrounding event loop to exit.
    pub fn quit(&self) -> (r: bool)
        ensures
            r == self.quit,
    {
        self.quit
    }

    /// A resize event: the stored resolution follows the window.  The
    /// shell updates the collaborator's viewport to the same size.
    pub fn on_resize(&mut self, width: u32, height: u32)
        ensures
            *final(self) == (ShaderPlayground { window_resolution: (width, height), ..*old(self) }),
    {
        self.window_resolution = (width, height);
    }

    /// A mouse-motion event: only the stored position moves; the next draw
    /// consumes it.
    pub fn handle_mouse_motion_input(&mut self, x: u32, y: u32)
        ensures
            *final(self) == (ShaderPlayground { mouse_position: (x, y), ..*old(self) }),
    {
        self.mouse_position = (x, y);
    }

    /// A key event: escape sets the quit flag; every other key leaves the
    /// engine untouched.
    pub fn handle_key_input(&mut self, escape_pressed: bool)
        ensures
            *final(self) == (ShaderPlayground {
                quit: old(self).quit || escape_pressed,
                ..*old(self)
            }),
    {
        if escape_pressed {
            self.quit = true;
        }
    }

    /// A dropped file becomes the new target: every previous target is
    /// unwatched and the new path watched, then the load result is
    /// applied.  Returns the superseded program's handle for release
    /// together with the watch result, which the caller logs.
    pub fn handle_file_drop_input(
        &mut self,
        path: &str,
        read: Result<String, String>,
        compile: Option<Result<u32, String>>,
        locations: Option<(i32, i32, i32)>,
        now_ms: u64,
    ) -> (r: (Option<u32>, Result<(), String>))
        requires
            old(self).wf(),
            (read is Ok) <==> (compile is Some),
            (compile matches Some(c) && c is Ok) <==> (locations is Some),
        ensures
            final(self).wf(),
            final(self).single_target(),
            final(self).shader == spec_from_file(read, compile),
            final(self).time_origin_ms == now_ms,
            final(self).uniforms == (match locations {
                Some(l) => Uniforms { window_resolution: l.0, mouse_position: l.1, time: l.2 },
                None => spec_absent_uniforms(),
            }),
            r.0 == (match old(self).shader {
                ReloadedShader::Shader(p) => Some(p.0),
                _ => None::<u32>,
            }),
            r.1 is Ok ==> (exists|d: Seq<char>, f: Seq<char>|
                #[trigger] final(self).watcher.watches(d, f)),
            r.1 is Err ==> forall|d: Seq<char>, f: Seq<char>| !final(self).watcher.watches(d, f),
            final(self).quit == old(self).quit,
            final(self).plane == old(self).plane,
            final(self).window_resolution == old(self).window_resolution,
            final(self).mouse_position == old(self).mouse_position,
            final(self).time_ms == old(self).time_ms,
    {
        let watched = self.watch_file(path);
        let released = self.load_shader(read, compile, locations, now_ms);
        (released, watched)
    }

    /// Poll the debounced change source: the path to reload, when a
    /// watched file changed since the last poll.  Never blocks.
    pub fn poll_changed_path(&self) -> (r: Option<String>)
        ensures
            r is Some ==> exists|d: Seq<char>, f: Seq<char>|
                #[trigger] self.watcher.watches(d, f),
    {
        self.watcher.file_changed()
    }

    /// One frame: recompute the elapsed time against the current origin
    /// and decide the frame's work.  The buffers are always cleared; the
    /// quad is drawn with the bound uniforms exactly when a program is
    /// active.
    pub fn draw(&mut self, now_ms: u64) -> (plan: FramePlan)
        ensures
            *final(self) == (ShaderPlayground {
                time_ms: spec_elapsed_ms(now_ms, old(self).time_origin_ms),
                ..*old(self)
            }),
            (plan.draw is Some) <==> (final(self).shader is Shader),
            plan.draw matches Some(c) ==> {
                &&& final(self).shader == ReloadedShader::Shader(ShaderProgram(c.program))
                &&& c.vao == final(self).plane.vao
                &&& c.uniforms == final(self).uniforms
                &&& c.resolution == final(self).window_resolution
                &&& c.mouse == final(self).mouse_position
                &&& c.mouse_y_flipped == final(self).window_resolution.1 as int
                    - final(self).mouse_position.1 as int
                &&& c.time_ms == final(self).time_ms
            },
    {
        self.time_ms = if now_ms >= self.time_origin_ms {
            now_ms - self.time_origin_ms
        } else {
            0
        };
        let draw = match &self.shader {
            ReloadedShader::Shader(p) => Some(
                DrawCall {
                    program: p.0,
                    vao: self.plane.vao,
                    uniforms: self.uniforms,
                    resolution: self.window_resolution,
                    mouse: self.mouse_position,
                    mouse_y_flipped: self.window_resolution.1 as i64
                        - self.mouse_position.1 as i64,
                    time_ms: self.time_ms,
                },
            ),
            _ => None,
        };
        FramePlan { draw }
    }
}

/// Law: a reload that replaces a compiled program always hands exactly
/// that program's handle back for release, and the program that is active
/// afterwards can only be the one this load's compile verdict accepted: no
/// program handle survives a reload unreleased, however many reload or
/// fail cycles run.
pub proof fn lemma_reload_releases_previous(
    pre: ShaderPlayground,
    post: ShaderPlayground,
    released: Option<u32>,
    read: Result<String, String>,
    compile: Option<Result<u32, String>>,
    locations: Option<(i32, i32, i32)>,
    now_ms: u64,
)
    requires
        spec_load_transition(pre, post, released, read, compile, locations, now_ms),
    ensures
        pre.shader matches ReloadedShader::Shader(p) ==> released == Some(p.0),
        !(pre.shader is Shader) ==> (released is None),
        post.shader matches ReloadedShader::Shader(q) ==> compile == Some(
            Result::<u32, String>::Ok(q.0),
        ),
{
}

/// Law: a failed load never leaves a stale program active: whenever the
/// read or the compile failed, the state after the load holds no program,
/// and the elapsed-time origin still reset.
pub proof fn lemma_failed_load_drops_program(
    pre: ShaderPlayground,
    post: ShaderPlayground,
    released: Option<u32>,
    read: Result<String, String>,
    compile: Option<Result<u32, String>>,
    locations: Option<(i32, i32, i32)>,
    now_ms: u64,
)
    requires
        spec_load_transition(pre, post, released, read, compile, locations, now_ms),
        read is Err || (compile matches Some(c) && c is Err),
    ensures
        !(post.shader is Shader),
        read is Err ==> (post.shader matches ReloadedShader::FileReadingError(e) && read matches
            Result::<String, String>::Err(e2) && e@ == e2@),
        post.time_origin_ms == now_ms,
{
}

} // verus!
