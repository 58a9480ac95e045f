use shader_playground::plane_buffer::PlaneBuffer;
use shader_playground::playground::ShaderPlayground;
use shader_playground::playground::ShaderPlaygroundArgs;
use shader_playground::playground::Uniforms;
use shader_playground::playground::ABSENT_UNIFORM_LOCATION;
use shader_playground::reloaded_shader::ReloadedShader;

fn engine() -> ShaderPlayground {
    ShaderPlayground::new(
        ShaderPlaygroundArgs { file: None, debouncer_ms: 250 },
        PlaneBuffer::new(5, 6),
        0,
    )
    .expect("constructing the engine")
}

#[test]
fn end_to_end_load_resize_fail_cycle() {
    let mut e = engine();
    assert!(matches!(e.shader, ReloadedShader::NotProvided));

    // No program yet: the frame is a clear alone.
    let plan = e.draw(100);
    assert!(plan.draw.is_none());

    // A dropped file that reads and compiles: the program becomes active
    // and the elapsed time restarts at the drop.  The drop target itself
    // does not resolve on disk, so the watch attempt reports failure.
    let (released, watched) = e.handle_file_drop_input(
        "/no/such/dir/shader.frag",
        Ok("fragment text".to_owned()),
        Some(Ok(7)),
        Some((0, 1, 2)),
        5000,
    );
    assert_eq!(released, None);
    assert!(watched.is_err());
    assert_eq!(e.shader.program_handle(), Some(7));
    let plan = e.draw(5000);
    let call = plan.draw.expect("a compiled shader draws");
    assert_eq!(call.time_ms, 0);
    assert_eq!(call.program, 7);
    assert_eq!(call.vao, 5);

    // Resize: the next draw binds the new resolution.
    e.on_resize(800, 600);
    let plan = e.draw(5250);
    let call = plan.draw.unwrap();
    assert_eq!(call.resolution, (800, 600));
    assert_eq!(call.time_ms, 250);

    // An external edit that no longer compiles: the program is dropped,
    // its handle comes back for release, and later frames clear only.
    let released = e.load_shader(
        Ok("broken fragment".to_owned()),
        Some(Err("0:1(1): error: syntax error".to_owned())),
        None,
        6000,
    );
    assert_eq!(released, Some(7));
    assert!(matches!(e.shader, ReloadedShader::ShaderError(_)));
    let plan = e.draw(6100);
    assert!(plan.draw.is_none());
    assert_eq!(e.time_ms, 100);
}

#[test]
fn reload_cycles_release_every_superseded_program() {
    let mut e = engine();
    assert_eq!(
        e.load_shader(Ok(String::new()), Some(Ok(7)), Some((0, 1, 2)), 10),
        None
    );
    assert_eq!(
        e.load_shader(Err("gone".to_owned()), None, None, 20),
        Some(7)
    );
    assert_eq!(
        e.load_shader(Ok(String::new()), Some(Ok(9)), Some((0, 1, 2)), 30),
        None
    );
    assert_eq!(
        e.load_shader(Ok(String::new()), Some(Ok(10)), Some((3, 4, 5)), 40),
        Some(9)
    );
    assert_eq!(e.shader.program_handle(), Some(10));
}

#[test]
fn uniforms_reset_to_absent_when_load_fails() {
    let mut e = engine();
    e.load_shader(Ok(String::new()), Some(Ok(7)), Some((3, 4, 5)), 0);
    assert_eq!(
        e.uniforms,
        Uniforms { window_resolution: 3, mouse_position: 4, time: 5 }
    );
    e.load_shader(Err("gone".to_owned()), None, None, 1);
    assert_eq!(e.uniforms.window_resolution, ABSENT_UNIFORM_LOCATION);
    assert_eq!(e.uniforms.mouse_position, ABSENT_UNIFORM_LOCATION);
    assert_eq!(e.uniforms.time, ABSENT_UNIFORM_LOCATION);
}

#[test]
fn mouse_y_is_flipped_against_the_window_height() {
    let mut e = engine();
    e.load_shader(Ok(String::new()), Some(Ok(7)), Some((0, 1, 2)), 0);
    e.on_resize(800, 600);
    e.handle_mouse_motion_input(10, 20);
    let plan = e.draw(0);
    let call = plan.draw.unwrap();
    assert_eq!(call.mouse, (10, 20));
    assert_eq!(call.mouse_y_flipped, 580);
}

#[test]
fn escape_sets_the_quit_flag_and_other_keys_do_not() {
    let mut e = engine();
    assert!(!e.quit());
    e.handle_key_input(false);
    assert!(!e.quit());
    e.handle_key_input(true);
    assert!(e.quit());
    e.handle_key_input(false);
    assert!(e.quit());
}

#[test]
fn elapsed_time_never_runs_backwards() {
    let mut e = engine();
    e.load_shader(Ok(String::new()), Some(Ok(7)), Some((0, 1, 2)), 1000);
    let plan = e.draw(400);
    assert_eq!(plan.draw.unwrap().time_ms, 0);
}

#[test]
fn construction_watches_nothing_and_a_bad_target_stays_unwatched() {
    let mut e = engine();
    assert!(!e.watcher.tracker.dir_subscribed(&"/no/such/path".to_owned()));
    assert!(e.watch_file("/no/such/path/shader.frag").is_err());
    assert!(!e.watcher.tracker.dir_subscribed(&"/no/such/path".to_owned()));
}

#[test]
fn cli_defaults_match_the_documented_configuration() {
    let cli = shader_playground::cli::Cli::default();
    assert!(cli.file.is_none());
    assert_eq!(cli.debouncer_ms, shader_playground::cli::DEFAULT_DEBOUNCER_MS);
    assert_eq!(cli.debouncer_ms, 250);
    assert!(!cli.debug);
}

#[test]
fn plane_buffer_keeps_its_handles() {
    let plane = PlaneBuffer::new(11, 12);
    assert_eq!(plane.vao, 11);
    assert_eq!(plane.vbo, 12);
}
