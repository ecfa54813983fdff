use rctop::bar::PartialGlyph;
use rctop::input::{dispatch, ControlAction, InputEvent};
use rctop::sampler::{merge_sample, RawSample, SourceResult};
use rctop::snapshot::{CPULoad, SystemData};
use rctop::ui::{
    aggregate_cpu, render_frame, shutdown_commands, startup_commands, update_menu_header, Color,
    DrawCmd, RenderState,
};

fn idle_core(idle: u32) -> CPULoad {
    CPULoad { user: 0, nice: 0, system: 0, interrupt: 0, idle }
}

/// A snapshot of a four-core machine, every core 25% busy, memory
/// 250 of 1000 bytes used, one mount, no battery.
fn four_core_snapshot() -> SystemData {
    merge_sample(
        SystemData::empty(),
        RawSample {
            cpu: SourceResult::Data(vec![
                idle_core(7500),
                idle_core(7500),
                idle_core(7500),
                idle_core(7500),
            ]),
            ram: SourceResult::Data((1000, 750)),
            disk: SourceResult::Data(vec![(1000, 750)]),
            network: SourceResult::Unavailable,
            battery: SourceResult::Unavailable,
            uptime: SourceResult::Data(60),
        },
    )
}

fn bars(cmds: &[DrawCmd]) -> Vec<(u16, PartialGlyph)> {
    cmds.iter()
        .filter_map(|c| match c {
            DrawCmd::Bar(b) => Some((b.full, b.partial)),
            _ => None,
        })
        .collect()
}

fn texts(cmds: &[DrawCmd]) -> Vec<String> {
    cmds.iter()
        .filter_map(|c| match c {
            DrawCmd::Text(s) => Some(s.clone()),
            _ => None,
        })
        .collect()
}

#[test]
fn four_quarter_busy_cores_at_width_forty() {
    // Terminal width 48: the core label "CPU 0: " plus one margin cell
    // leaves bars of exactly 40 cells.
    let snap = four_core_snapshot();
    let mut state = RenderState::new(48, 20);
    let cmds = render_frame(&mut state, &snap, 48, 20, "1.0");
    let drawn = bars(&cmds);
    // Four core bars, then the memory bar, then the disk bar.
    assert_eq!(drawn.len(), 6);
    for core_bar in &drawn[0..4] {
        assert_eq!(*core_bar, (10, PartialGlyph::Empty));
    }
    assert_eq!(aggregate_cpu(&snap.cpu), 2500);
    let footer = texts(&cmds).pop().unwrap();
    assert!(footer.starts_with("CPU: 25.00% RAM: 250.00B / 1000.00B"), "footer was {footer:?}");
}

#[test]
fn memory_bar_at_width_fifty() {
    // Terminal width 59: "Memory: " plus one margin cell leaves 50.
    let snap = four_core_snapshot();
    let mut state = RenderState::new(59, 20);
    let cmds = render_frame(&mut state, &snap, 59, 20, "1.0");
    let drawn = bars(&cmds);
    // The memory bar follows the four core bars: 50 * 25% = 12.5 cells.
    assert_eq!(drawn[4], (12, PartialGlyph::Medium));
}

#[test]
fn header_shows_title_and_uptime() {
    let snap = four_core_snapshot();
    let mut state = RenderState::new(48, 20);
    let cmds = render_frame(&mut state, &snap, 48, 20, "1.0");
    let header = texts(&cmds).remove(0);
    assert_eq!(header, "RCTOP v1.0 [Width: 48, Height: 20]   Uptime: 1m ");
    assert_eq!(header.chars().count(), 48);
}

#[test]
fn first_draw_clears_then_steady_frames_do_not() {
    let snap = four_core_snapshot();
    let mut state = RenderState::new(48, 20);
    let first = render_frame(&mut state, &snap, 48, 20, "1.0");
    assert_eq!(first[0], DrawCmd::ClearAll);
    let second = render_frame(&mut state, &snap, 48, 20, "1.0");
    assert!(!second.contains(&DrawCmd::ClearAll));
}

#[test]
fn resize_event_forces_a_full_clear_on_the_next_draw() {
    let snap = four_core_snapshot();
    let mut state = RenderState::new(48, 20);
    let _ = render_frame(&mut state, &snap, 48, 20, "1.0");

    // The input listener sees a resize and invalidates the layout.
    assert_eq!(dispatch(&InputEvent::Resize(80, 30)), ControlAction::Invalidate);
    state.invalidate();

    let next = render_frame(&mut state, &snap, 48, 20, "1.0");
    assert_eq!(next[0], DrawCmd::ClearAll);

    // Changed dimensions force a clear even without the signal.
    let resized = render_frame(&mut state, &snap, 80, 30, "1.0");
    assert_eq!(resized[0], DrawCmd::ClearAll);
}

#[test]
fn unavailable_disks_render_a_placeholder_then_recover_without_a_clear() {
    let mut raw_gone = RawSample {
        cpu: SourceResult::Data(vec![idle_core(7500)]),
        ram: SourceResult::Data((1000, 750)),
        disk: SourceResult::Unavailable,
        network: SourceResult::Unavailable,
        battery: SourceResult::Unavailable,
        uptime: SourceResult::Data(60),
    };
    let snap_gone = merge_sample(SystemData::empty(), raw_gone.clone());
    let mut state = RenderState::new(48, 20);
    let _ = render_frame(&mut state, &snap_gone, 48, 20, "1.0");
    let frame_gone = render_frame(&mut state, &snap_gone, 48, 20, "1.0");
    assert!(
        texts(&frame_gone).iter().any(|t| t == "Disks: unavailable"),
        "placeholder row missing",
    );

    // The next tick succeeds: normal bars come back with no full clear.
    raw_gone.disk = SourceResult::Data(vec![(1000, 750)]);
    let snap_back = merge_sample(snap_gone, raw_gone);
    let frame_back = render_frame(&mut state, &snap_back, 48, 20, "1.0");
    assert!(!frame_back.contains(&DrawCmd::ClearAll));
    assert!(!texts(&frame_back).iter().any(|t| t == "Disks: unavailable"));
    assert!(texts(&frame_back).iter().any(|t| t.starts_with("Disk 0:")));
}

#[test]
fn quit_key_dispatches_quit_and_shutdown_restores_the_terminal() {
    assert_eq!(dispatch(&InputEvent::Key('q')), ControlAction::Quit);
    assert_eq!(dispatch(&InputEvent::Key('x')), ControlAction::Ignore);
    assert_eq!(dispatch(&InputEvent::Mouse), ControlAction::Ignore);

    let restore = shutdown_commands();
    assert_eq!(
        restore,
        vec![
            DrawCmd::ShowCursor,
            DrawCmd::ClearAll,
            DrawCmd::ResetColor,
            DrawCmd::MoveTo(0, 0),
        ],
    );
}

#[test]
fn startup_hides_the_cursor() {
    assert_eq!(startup_commands(), vec![DrawCmd::HideCursor]);
}

#[test]
fn rows_are_cleared_before_overwriting() {
    let snap = four_core_snapshot();
    let mut state = RenderState::new(48, 20);
    let cmds = render_frame(&mut state, &snap, 48, 20, "1.0");
    // Header, four cores, memory, one disk, footer: eight cleared rows.
    let clears = cmds.iter().filter(|c| **c == DrawCmd::ClearLine).count();
    assert_eq!(clears, 8);
    // Every row starts with a cursor move.
    let moves = cmds.iter().filter(|c| matches!(c, DrawCmd::MoveTo(_, _))).count();
    assert_eq!(moves, 8);
}

#[test]
fn colors_are_reset_after_each_colored_row() {
    let snap = four_core_snapshot();
    let mut state = RenderState::new(48, 20);
    let cmds = render_frame(&mut state, &snap, 48, 20, "1.0");
    // Eight colored rows, each ending in one color reset.
    let resets = cmds.iter().filter(|c| **c == DrawCmd::ResetColor).count();
    assert_eq!(resets, 8);
    // The last command of the frame leaves the colors reset.
    assert_eq!(cmds.last(), Some(&DrawCmd::ResetColor));
    assert!(cmds.contains(&DrawCmd::SetFg(Color::Black)));
    assert!(cmds.contains(&DrawCmd::SetFg(Color::DarkGreen)));
    assert!(cmds.contains(&DrawCmd::SetFg(Color::DarkYellow)));
    assert!(cmds.contains(&DrawCmd::SetBg(Color::DarkCyan)));
}

#[test]
fn menu_header_changes_nothing() {
    let mut selection = (3usize, 4usize);
    update_menu_header(&mut selection, (80, 24));
    assert_eq!(selection, (3, 4));
}
