//! The renderer: computing one frame of drawing commands from the
//! latest snapshot and the current terminal dimensions.
//!
//! A frame is a list of [`DrawCmd`] values; the embedding program plays
//! them against the real terminal.  The layout, top to bottom: an
//! inverse-colored header band, one usage bar per core, a memory bar, a
//! disk section (bars, or a placeholder when the platform cannot
//! enumerate mounts), and an inverse-colored footer band with the
//! aggregate CPU percentage, memory totals, and the battery state.

use vstd::prelude::*;

use crate::bar::{bar_cells, spec_bar_shape, BarShape};
use crate::snapshot::{
    cpu_wf, spec_core_busy, sys_wf, CPUData, CPULoad, MountInfo, RAMData, SystemData,
};
use crate::textfit::{fit_row, spec_fit_row};
use crate::utils::{
    fixed2_string, parse_size, parse_time, spaces, spec_dec, spec_dec_len, spec_fixed2,
    spec_parse_size, spec_parse_time, spec_spaces, u64_to_string,
};

verus! {

/// The colors the dashboard draws with.
#[derive(Clone, Copy, PartialEq, Eq, Structural, Debug)]
pub enum Color {
    Black,
    DarkCyan,
    DarkGreen,
    DarkYellow,
}

/// One drawing command for the terminal backend.
#[derive(Clone, PartialEq, Debug)]
pub enum DrawCmd {
    /// Move the cursor to (column, row).
    MoveTo(u16, u16),
    /// Clear the whole screen.
    ClearAll,
    /// Clear the current line before overwriting it.
    ClearLine,
    /// Set the background color.
    SetBg(Color),
    /// Set the foreground color.
    SetFg(Color),
    /// Reset colors so they do not bleed into later text.
    ResetColor,
    /// Print a string at the cursor.
    Text(String),
    /// Draw a usage bar at the cursor in the current foreground color.
    Bar(BarShape),
    /// Hide the cursor (program start).
    HideCursor,
    /// Show the cursor again (shutdown).
    ShowCursor,
}

/// The spec-level value of one drawing command.
pub enum CmdView {
    MoveTo(u16, u16),
    ClearAll,
    ClearLine,
    SetBg(Color),
    SetFg(Color),
    ResetColor,
    Text(Seq<char>),
    Bar(BarShape),
    HideCursor,
    ShowCursor,
}

impl View for DrawCmd {
    type V = CmdView;

    open spec fn view(&self) -> CmdView {
        match self {
            DrawCmd::MoveTo(x, y) => CmdView::MoveTo(*x, *y),
            DrawCmd::ClearAll => CmdView::ClearAll,
            DrawCmd::ClearLine => CmdView::ClearLine,
            DrawCmd::SetBg(c) => CmdView::SetBg(*c),
            DrawCmd::SetFg(c) => CmdView::SetFg(*c),
            DrawCmd::ResetColor => CmdView::ResetColor,
            DrawCmd::Text(s) => CmdView::Text(s@),
            DrawCmd::Bar(b) => CmdView::Bar(*b),
            DrawCmd::HideCursor => CmdView::HideCursor,
            DrawCmd::ShowCursor => CmdView::ShowCursor,
        }
    }
}

/// The spec-level value of a whole command list.
pub open spec fn cmds_view(s: Seq<DrawCmd>) -> Seq<CmdView> {
    s.map_values(|c: DrawCmd| c@)
}

pub proof fn lemma_cmds_view_concat(a: Seq<DrawCmd>, b: Seq<DrawCmd>)
    ensures
        cmds_view(a + b) == cmds_view(a) + cmds_view(b),
{
    assert(cmds_view(a + b) =~= cmds_view(a) + cmds_view(b));
}

/// What the renderer remembers between draws: the terminal dimensions it
/// last drew for, and whether the next draw must clear the whole screen
/// first.
#[derive(Clone, Copy, PartialEq, Eq, Structural, Debug)]
pub struct RenderState {
    pub width: u16,
    pub height: u16,
    pub force_clear: bool,
}

impl RenderState {
    /// A fresh render state; the first draw clears the screen.
    pub fn new(width: u16, height: u16) -> (s: RenderState)
        ensures
            s.width == width,
            s.height == height,
            s.force_clear,
    {
        RenderState { width, height, force_clear: true }
    }

    /// Invalidates the cached layout, as a resize signal demands: the
    /// very next draw will clear the whole screen before drawing.
    pub fn invalidate(&mut self)
        ensures
            final(self).width == old(self).width,
            final(self).height == old(self).height,
            final(self).force_clear,
    {
        self.force_clear = true;
    }
}

/// Whether the next frame must begin with a full-screen clear: either a
/// signal asked for one, or the terminal dimensions changed since the
/// last draw.
pub open spec fn spec_needs_clear(st: RenderState, w: u16, h: u16) -> bool {
    st.force_clear || st.width != w || st.height != h
}

/// The header's left text: title, version and terminal dimensions.
pub open spec fn spec_header_left(version: Seq<char>, w: u16, h: u16) -> Seq<char> {
    "RCTOP v"@ + version + " [Width: "@ + spec_dec(w as nat) + ", Height: "@ + spec_dec(h as nat)
        + "]"@
}

/// The header's right text: the uptime.
pub open spec fn spec_header_right(uptime: u64) -> Seq<char> {
    "Uptime: "@ + spec_parse_time(uptime as nat)
}

/// The header band: row 0, cleared, inverse-colored (dark background,
/// black text), the title fitted against the uptime.
pub open spec fn spec_header_cmds(version: Seq<char>, uptime: u64, w: u16, h: u16) -> Seq<
    CmdView,
> {
    seq![
        CmdView::MoveTo(0, 0),
        CmdView::ClearLine,
        CmdView::SetBg(Color::DarkCyan),
        CmdView::SetFg(Color::Black),
        CmdView::Text(
            spec_fit_row(spec_header_left(version, w, h), spec_header_right(uptime), w as nat),
        ),
        CmdView::ResetColor,
    ]
}

/// The label of core `i`: `CPU i:` padded so all labels have the width
/// of the largest core count.
pub open spec fn spec_cpu_label(i: int, count_len: nat) -> Seq<char> {
    "CPU "@ + spec_dec(i as nat) + ":"@ + spec_spaces(
        (count_len + 1 - spec_dec_len(i as nat)) as nat,
    )
}

/// The cells left for a core's bar: the width minus the label and one
/// margin cell.
pub open spec fn spec_cpu_bar_width(w: u16, count_len: nat) -> nat {
    if w > count_len + 7 {
        (w - count_len - 7) as nat
    } else {
        0
    }
}

/// One core's row: at row `2 + i`, cleared, the aligned label, then a
/// green bar at the core's busy share.
pub open spec fn spec_cpu_row(loads: Seq<CPULoad>, w: u16, i: int) -> Seq<CmdView> {
    let count_len = spec_dec_len(loads.len());
    seq![
        CmdView::MoveTo(0, (2 + i) as u16),
        CmdView::ClearLine,
        CmdView::Text(spec_cpu_label(i, count_len)),
        CmdView::SetFg(Color::DarkGreen),
        CmdView::Bar(spec_bar_shape(spec_cpu_bar_width(w, count_len), spec_core_busy(loads[i]))),
        CmdView::ResetColor,
    ]
}

/// The first `n` core rows, in core order.
pub open spec fn spec_cpu_rows(loads: Seq<CPULoad>, w: u16, n: int) -> Seq<CmdView>
    decreases n,
{
    if n <= 0 {
        Seq::empty()
    } else {
        spec_cpu_rows(loads, w, n - 1) + spec_cpu_row(loads, w, n - 1)
    }
}

/// The memory row: one blank row under the core rows, cleared, the
/// label, then a yellow bar at the used share of memory.
pub open spec fn spec_mem_row(ram: RAMData, count: nat, w: u16) -> Seq<CmdView> {
    seq![
        CmdView::MoveTo(0, (3 + count) as u16),
        CmdView::ClearLine,
        CmdView::Text("Memory: "@),
        CmdView::SetFg(Color::DarkYellow),
        CmdView::Bar(
            spec_bar_shape(
                if w > 9 {
                    (w - 9) as nat
                } else {
                    0
                },
                ram.percentage as nat,
            ),
        ),
        CmdView::ResetColor,
    ]
}

/// The label of mount `j`, aligned like the core labels.
pub open spec fn spec_disk_label(j: int, dcount_len: nat) -> Seq<char> {
    "Disk "@ + spec_dec(j as nat) + ":"@ + spec_spaces(
        (dcount_len + 1 - spec_dec_len(j as nat)) as nat,
    )
}

/// The cells left for a mount's bar.
pub open spec fn spec_disk_bar_width(w: u16, dcount_len: nat) -> nat {
    if w > dcount_len + 8 {
        (w - dcount_len - 8) as nat
    } else {
        0
    }
}

/// One mount's row: at `base + j`, cleared, the aligned label, then a
/// cyan bar at the mount's used share.
pub open spec fn spec_disk_row(mounts: Seq<MountInfo>, base: int, w: u16, j: int) -> Seq<CmdView> {
    let dcount_len = spec_dec_len(mounts.len());
    seq![
        CmdView::MoveTo(0, (base + j) as u16),
        CmdView::ClearLine,
        CmdView::Text(spec_disk_label(j, dcount_len)),
        CmdView::SetFg(Color::DarkCyan),
        CmdView::Bar(spec_bar_shape(spec_disk_bar_width(w, dcount_len), mounts[j].percentage)),
        CmdView::ResetColor,
    ]
}

/// The first `n` mount rows.
pub open spec fn spec_disk_rows(mounts: Seq<MountInfo>, base: int, w: u16, n: int) -> Seq<CmdView>
    decreases n,
{
    if n <= 0 {
        Seq::empty()
    } else {
        spec_disk_rows(mounts, base, w, n - 1) + spec_disk_row(mounts, base, w, n - 1)
    }
}

/// The disk section: one row per mount, or one cleared placeholder row
/// when the platform cannot enumerate mounts, so the layout stays
/// stable.
pub open spec fn spec_disk_section(disk: Option<Seq<MountInfo>>, count: nat, w: u16) -> Seq<
    CmdView,
> {
    let base = 5 + count as int;
    match disk {
        Some(mounts) => spec_disk_rows(mounts, base, w, mounts.len() as int),
        None => seq![
            CmdView::MoveTo(0, base as u16),
            CmdView::ClearLine,
            CmdView::Text("Disks: unavailable"@),
        ],
    }
}

/// The busy shares of all cores, summed.
pub open spec fn spec_busy_sum(loads: Seq<CPULoad>) -> nat
    decreases loads.len(),
{
    if loads.len() == 0 {
        0
    } else {
        spec_busy_sum(loads.drop_last()) + spec_core_busy(loads.last())
    }
}

/// The aggregate CPU percentage: the mean of the per-core busy shares,
/// in hundredths of a percent; zero on a machine with no cores.
pub open spec fn spec_cpu_aggregate(loads: Seq<CPULoad>) -> nat {
    if loads.len() == 0 {
        0
    } else {
        spec_busy_sum(loads) / loads.len()
    }
}

/// Computes the aggregate CPU percentage of a snapshot's CPU section.
pub fn aggregate_cpu(cpu: &CPUData) -> (p: u32)
    requires
        cpu_wf(*cpu),
    ensures
        p == spec_cpu_aggregate(cpu@),
        p <= 10000,
{
    let count = cpu.load.len();
    if count == 0 {
        return 0;
    }
    let mut sum: u128 = 0;
    let mut i: usize = 0;
    while i < count
        invariant
            cpu_wf(*cpu),
            count == cpu.load@.len(),
            i <= count,
            sum == spec_busy_sum(cpu.load@.take(i as int)),
            sum <= 10000 * (i as int),
        decreases count - i,
    {
        let idle = cpu.load[i].idle;
        let busy: u32 = 10000 - idle;
        sum = sum + busy as u128;
        i = i + 1;
        proof {
            assert(cpu.load@.take(i as int).drop_last() =~= cpu.load@.take(i as int - 1));
            assert(cpu.load@.take(i as int).last() == cpu.load@[i as int - 1]);
        }
    }
    proof {
        assert(cpu.load@.take(count as int) =~= cpu.load@);
        vstd::arithmetic::div_mod::lemma_div_is_ordered(
            sum as int,
            10000 * (count as int),
            count as int,
        );
        vstd::arithmetic::div_mod::lemma_div_multiples_vanish(10000, count as int);
    }
    (sum / (count as u128)) as u32
}

/// The footer's left text: aggregate CPU percentage and memory usage.
pub open spec fn spec_footer_left(snap: SystemData) -> Seq<char> {
    "CPU: "@ + spec_fixed2(spec_cpu_aggregate(snap.cpu@)) + "% RAM: "@ + spec_parse_size(
        snap.ram.used as nat,
    ) + " / "@ + spec_parse_size(snap.ram.total as nat)
}

/// The footer's right text: the battery state, or a placeholder when the
/// platform cannot provide one.
pub open spec fn spec_footer_right(snap: SystemData) -> Seq<char> {
    match snap.battery {
        Some(b) => "Battery: "@ + spec_fixed2(b.percentage as nat) + "%, "@ + spec_parse_time(
            b.remaining_secs as nat,
        ),
        None => "Battery: unavailable"@,
    }
}

/// The row the footer band sits on: the last terminal row.
pub open spec fn spec_footer_row(h: u16) -> u16 {
    if h > 0 {
        (h - 1) as u16
    } else {
        0
    }
}

/// The footer band: the last row, cleared, inverse-colored, usage
/// figures fitted against the battery state.
pub open spec fn spec_footer_cmds(snap: SystemData, w: u16, h: u16) -> Seq<CmdView> {
    seq![
        CmdView::MoveTo(0, spec_footer_row(h)),
        CmdView::ClearLine,
        CmdView::SetBg(Color::DarkCyan),
        CmdView::SetFg(Color::Black),
        CmdView::Text(spec_fit_row(spec_footer_left(snap), spec_footer_right(snap), w as nat)),
        CmdView::ResetColor,
    ]
}

/// The whole frame: a full clear exactly when one is needed, then the
/// header, the core rows, the memory row, the disk section, and the
/// footer.
pub open spec fn spec_frame(
    st: RenderState,
    snap: SystemData,
    w: u16,
    h: u16,
    version: Seq<char>,
) -> Seq<CmdView> {
    let clear: Seq<CmdView> = if spec_needs_clear(st, w, h) {
        seq![CmdView::ClearAll]
    } else {
        Seq::empty()
    };
    let count = snap.cpu@.len();
    clear + spec_header_cmds(version, snap.uptime, w, h) + spec_cpu_rows(
        snap.cpu@,
        w,
        count as int,
    ) + spec_mem_row(snap.ram, count, w) + spec_disk_section(
        match snap.disk {
            Some(d) => Some(d@),
            None => None,
        },
        count,
        w,
    ) + spec_footer_cmds(snap, w, h)
}

/// The row coordinates of a frame fit the terminal's 16-bit coordinate
/// space.
pub open spec fn frame_fits(s: SystemData) -> bool {
    s.cpu@.len() + (match s.disk {
        Some(d) => d@.len(),
        None => 1nat,
    }) + 6 <= 65535
}

fn header_cmds(version: &str, uptime: u64, w: u16, h: u16) -> (cmds: Vec<DrawCmd>)
    ensures
        cmds_view(cmds@) == spec_header_cmds(version@, uptime, w, h),
{
    let mut left = "RCTOP v".to_owned();
    left.append(version);
    left.append(" [Width: ");
    left.append(u64_to_string(w as u64).as_str());
    left.append(", Height: ");
    left.append(u64_to_string(h as u64).as_str());
    left.append("]");
    let mut right = "Uptime: ".to_owned();
    right.append(parse_time(uptime).as_str());
    let text = fit_row(left.as_str(), right.as_str(), w as usize);
    let mut cmds: Vec<DrawCmd> = Vec::new();
    cmds.push(DrawCmd::MoveTo(0, 0));
    cmds.push(DrawCmd::ClearLine);
    cmds.push(DrawCmd::SetBg(Color::DarkCyan));
    cmds.push(DrawCmd::SetFg(Color::Black));
    cmds.push(DrawCmd::Text(text));
    cmds.push(DrawCmd::ResetColor);
    proof {
        assert(cmds_view(cmds@) =~= spec_header_cmds(version@, uptime, w, h));
    }
    cmds
}

fn cpu_rows_cmds(cpu: &CPUData, w: u16) -> (cmds: Vec<DrawCmd>)
    requires
        cpu_wf(*cpu),
        cpu@.len() + 2 <= 65535,
    ensures
        cmds_view(cmds@) == spec_cpu_rows(cpu@, w, cpu@.len() as int),
{
    let count = cpu.load.len();
    let count_str = u64_to_string(count as u64);
    let count_len = count_str.as_str().unicode_len();
    proof {
        crate::utils::lemma_dec_len(count as nat);
        crate::utils::lemma_dec_len_small(count as nat);
    }
    let bw: u16 = if (w as usize) > count_len + 7 {
        w - ((count_len + 7) as u16)
    } else {
        0
    };
    let mut cmds: Vec<DrawCmd> = Vec::new();
    let mut i: usize = 0;
    proof {
        assert(cmds_view(cmds@) =~= spec_cpu_rows(cpu@, w, 0));
    }
    while i < count
        invariant
            cpu_wf(*cpu),
            count == cpu.load@.len(),
            count + 2 <= 65535,
            count_len == spec_dec_len(count as nat),
            count_len <= 5,
            bw == spec_cpu_bar_width(w, count_len as nat),
            i <= count,
            cmds_view(cmds@) == spec_cpu_rows(cpu@, w, i as int),
        decreases count - i,
    {
        let idx_str = u64_to_string(i as u64);
        let idx_len = idx_str.as_str().unicode_len();
        proof {
            crate::utils::lemma_dec_len(i as nat);
            crate::utils::lemma_dec_len_monotone(i as nat, count as nat);
        }
        let mut label = "CPU ".to_owned();
        label.append(idx_str.as_str());
        label.append(":");
        label.append(spaces(count_len + 1 - idx_len).as_str());
        let idle = cpu.load[i].idle;
        let busy: u32 = 10000 - idle;
        let shape = bar_cells(bw, busy);
        cmds.push(DrawCmd::MoveTo(0, (2 + i) as u16));
        cmds.push(DrawCmd::ClearLine);
        cmds.push(DrawCmd::Text(label));
        cmds.push(DrawCmd::SetFg(Color::DarkGreen));
        cmds.push(DrawCmd::Bar(shape));
        cmds.push(DrawCmd::ResetColor);
        i = i + 1;
        proof {
            assert(cmds_view(cmds@) =~= spec_cpu_rows(cpu@, w, i as int));
        }
    }
    cmds
}

fn mem_row_cmds(ram: &RAMData, count: usize, w: u16) -> (cmds: Vec<DrawCmd>)
    requires
        count + 3 <= 65535,
    ensures
        cmds_view(cmds@) == spec_mem_row(*ram, count as nat, w),
{
    let bw: u16 = if w > 9 {
        w - 9
    } else {
        0
    };
    let shape = bar_cells(bw, ram.percentage);
    let mut cmds: Vec<DrawCmd> = Vec::new();
    cmds.push(DrawCmd::MoveTo(0, (3 + count) as u16));
    cmds.push(DrawCmd::ClearLine);
    cmds.push(DrawCmd::Text("Memory: ".to_owned()));
    cmds.push(DrawCmd::SetFg(Color::DarkYellow));
    cmds.push(DrawCmd::Bar(shape));
    cmds.push(DrawCmd::ResetColor);
    proof {
        assert(cmds_view(cmds@) =~= spec_mem_row(*ram, count as nat, w));
    }
    cmds
}

fn disk_rows_cmds(disk: &Option<crate::snapshot::DiskData>, count: usize, w: u16) -> (cmds: Vec<
    DrawCmd,
>)
    requires
        match disk {
            Some(d) => crate::snapshot::disk_wf(*d) && count + d@.len() + 5 <= 65535,
            None => count + 5 <= 65535,
        },
    ensures
        cmds_view(cmds@) == spec_disk_section(
            match disk {
                Some(d) => Some(d@),
                None => None,
            },
            count as nat,
            w,
        ),
{
    let base: usize = 5 + count;
    match disk {
        None => {
            let mut cmds: Vec<DrawCmd> = Vec::new();
            cmds.push(DrawCmd::MoveTo(0, base as u16));
            cmds.push(DrawCmd::ClearLine);
            cmds.push(DrawCmd::Text("Disks: unavailable".to_owned()));
            proof {
                assert(cmds_view(cmds@) =~= spec_disk_section(None, count as nat, w));
            }
            cmds
        },
        Some(d) => {
            let dcount = d.total.len();
            let dcount_str = u64_to_string(dcount as u64);
            let dcount_len = dcount_str.as_str().unicode_len();
            proof {
                crate::utils::lemma_dec_len(dcount as nat);
                crate::utils::lemma_dec_len_small(dcount as nat);
            }
            let bw: u16 = if (w as usize) > dcount_len + 8 {
                w - ((dcount_len + 8) as u16)
            } else {
                0
            };
            let mut cmds: Vec<DrawCmd> = Vec::new();
            let mut j: usize = 0;
            proof {
                assert(cmds_view(cmds@) =~= spec_disk_rows(d@, base as int, w, 0));
            }
            while j < dcount
                invariant
                    crate::snapshot::disk_wf(*d),
                    dcount == d@.len(),
                    dcount == d.total@.len() && dcount == d.percentage@.len(),
                    base == 5 + count,
                    count + dcount + 5 <= 65535,
                    dcount_len == spec_dec_len(dcount as nat),
                    dcount_len <= 5,
                    bw == spec_disk_bar_width(w, dcount_len as nat),
                    j <= dcount,
                    cmds_view(cmds@) == spec_disk_rows(d@, base as int, w, j as int),
                decreases dcount - j,
            {
                let idx_str = u64_to_string(j as u64);
                let idx_len = idx_str.as_str().unicode_len();
                proof {
                    crate::utils::lemma_dec_len(j as nat);
                    crate::utils::lemma_dec_len_monotone(j as nat, dcount as nat);
                }
                let mut label = "Disk ".to_owned();
                label.append(idx_str.as_str());
                label.append(":");
                label.append(spaces(dcount_len + 1 - idx_len).as_str());
                let pct = d.percentage[j];
                let shape = bar_cells(bw, pct);
                proof {
                    assert(d@[j as int].percentage == pct as nat);
                }
                cmds.push(DrawCmd::MoveTo(0, (base + j) as u16));
                cmds.push(DrawCmd::ClearLine);
                cmds.push(DrawCmd::Text(label));
                cmds.push(DrawCmd::SetFg(Color::DarkCyan));
                cmds.push(DrawCmd::Bar(shape));
                cmds.push(DrawCmd::ResetColor);
                j = j + 1;
                proof {
                    assert(cmds_view(cmds@) =~= spec_disk_rows(d@, base as int, w, j as int));
                }
            }
            proof {
                assert(spec_disk_rows(d@, base as int, w, dcount as int) == spec_disk_section(
                    Some(d@),
                    count as nat,
                    w,
                ));
            }
            cmds
        },
    }
}

fn footer_cmds(snap: &SystemData, w: u16, h: u16) -> (cmds: Vec<DrawCmd>)
    requires
        sys_wf(*snap),
    ensures
        cmds_view(cmds@) == spec_footer_cmds(*snap, w, h),
{
    let agg = aggregate_cpu(&snap.cpu);
    let mut left = "CPU: ".to_owned();
    left.append(fixed2_string(agg as u64).as_str());
    left.append("% RAM: ");
    left.append(parse_size(&snap.ram.used).as_str());
    left.append(" / ");
    left.append(parse_size(&snap.ram.total).as_str());
    let right = match &snap.battery {
        Some(b) => {
            let mut r = "Battery: ".to_owned();
            r.append(fixed2_string(b.percentage as u64).as_str());
            r.append("%, ");
            r.append(parse_time(b.remaining_secs).as_str());
            r
        },
        None => "Battery: unavailable".to_owned(),
    };
    let row: u16 = if h > 0 {
        h - 1
    } else {
        0
    };
    let text = fit_row(left.as_str(), right.as_str(), w as usize);
    let mut cmds: Vec<DrawCmd> = Vec::new();
    cmds.push(DrawCmd::MoveTo(0, row));
    cmds.push(DrawCmd::ClearLine);
    cmds.push(DrawCmd::SetBg(Color::DarkCyan));
    cmds.push(DrawCmd::SetFg(Color::Black));
    cmds.push(DrawCmd::Text(text));
    cmds.push(DrawCmd::ResetColor);
    proof {
        assert(cmds_view(cmds@) =~= spec_footer_cmds(*snap, w, h));
    }
    cmds
}

/// Computes one frame of drawing commands for the given snapshot at the
/// given terminal dimensions, and records those dimensions.  The frame
/// begins with a full-screen clear exactly when the dimensions changed
/// or a resize signal invalidated the layout; every row is cleared
/// before it is overwritten.
pub fn render_frame(
    state: &mut RenderState,
    snap: &SystemData,
    width: u16,
    height: u16,
    version: &str,
) -> (cmds: Vec<DrawCmd>)
    requires
        sys_wf(*snap),
        frame_fits(*snap),
    ensures
        cmds_view(cmds@) == spec_frame(*old(state), *snap, width, height, version@),
        final(state).width == width,
        final(state).height == height,
        !final(state).force_clear,
{
    let mut cmds: Vec<DrawCmd> = Vec::new();
    if state.force_clear || state.width != width || state.height != height {
        cmds.push(DrawCmd::ClearAll);
    }
    let ghost clear_part = cmds@;
    proof {
        assert(cmds_view(clear_part) =~= if spec_needs_clear(*old(state), width, height) {
            seq![CmdView::ClearAll]
        } else {
            Seq::<CmdView>::empty()
        });
    }
    let mut part = header_cmds(version, snap.uptime, width, height);
    proof {
        lemma_cmds_view_concat(cmds@, part@);
    }
    cmds.append(&mut part);
    let mut part = cpu_rows_cmds(&snap.cpu, width);
    proof {
        lemma_cmds_view_concat(cmds@, part@);
    }
    cmds.append(&mut part);
    let count = snap.cpu.load.len();
    let mut part = mem_row_cmds(&snap.ram, count, width);
    proof {
        lemma_cmds_view_concat(cmds@, part@);
    }
    cmds.append(&mut part);
    let mut part = disk_rows_cmds(&snap.disk, count, width);
    proof {
        lemma_cmds_view_concat(cmds@, part@);
    }
    cmds.append(&mut part);
    let mut part = footer_cmds(snap, width, height);
    proof {
        lemma_cmds_view_concat(cmds@, part@);
    }
    cmds.append(&mut part);
    state.width = width;
    state.height = height;
    state.force_clear = false;
    cmds
}

/// A frame that needs a full clear begins with one.
pub proof fn lemma_resize_forces_clear(
    st: RenderState,
    snap: SystemData,
    w: u16,
    h: u16,
    version: Seq<char>,
)
    requires
        spec_needs_clear(st, w, h),
    ensures
        spec_frame(st, snap, w, h, version).len() > 0,
        spec_frame(st, snap, w, h, version)[0] == CmdView::ClearAll,
{
}

/// After a resize event, the very next draw performs a full clear
/// before drawing anything: the event dispatches the invalidate signal,
/// and any invalidated state makes the frame begin with a full clear.
pub proof fn lemma_resize_event_clears_next_frame(
    e: crate::input::InputEvent,
    st: RenderState,
    snap: SystemData,
    w: u16,
    h: u16,
    version: Seq<char>,
)
    requires
        e is Resize,
        st.force_clear,
    ensures
        crate::input::spec_dispatch(e) == crate::input::ControlAction::Invalidate,
        spec_frame(st, snap, w, h, version)[0] == CmdView::ClearAll,
{
    lemma_resize_forces_clear(st, snap, w, h, version);
}

proof fn lemma_cpu_rows_no_clear(loads: Seq<CPULoad>, w: u16, n: int)
    ensures
        forall|i: int|
            0 <= i < spec_cpu_rows(loads, w, n).len() ==> spec_cpu_rows(loads, w, n)[i]
                != CmdView::ClearAll,
    decreases n,
{
    if n > 0 {
        lemma_cpu_rows_no_clear(loads, w, n - 1);
    }
}

proof fn lemma_disk_rows_no_clear(mounts: Seq<MountInfo>, base: int, w: u16, n: int)
    ensures
        forall|i: int|
            0 <= i < spec_disk_rows(mounts, base, w, n).len() ==> spec_disk_rows(
                mounts,
                base,
                w,
                n,
            )[i] != CmdView::ClearAll,
    decreases n,
{
    if n > 0 {
        lemma_disk_rows_no_clear(mounts, base, w, n - 1);
    }
}

/// While the dimensions are unchanged and no resize signal arrived, a
/// frame never clears the whole screen: each row only clears itself.
pub proof fn lemma_no_clear_without_resize(
    st: RenderState,
    snap: SystemData,
    w: u16,
    h: u16,
    version: Seq<char>,
)
    requires
        !spec_needs_clear(st, w, h),
    ensures
        forall|i: int|
            0 <= i < spec_frame(st, snap, w, h, version).len() ==> spec_frame(
                st,
                snap,
                w,
                h,
                version,
            )[i] != CmdView::ClearAll,
{
    let count = snap.cpu@.len();
    lemma_cpu_rows_no_clear(snap.cpu@, w, count as int);
    match snap.disk {
        Some(d) => lemma_disk_rows_no_clear(d@, 5 + count as int, w, d@.len() as int),
        None => {},
    }
}

/// The commands that prepare the terminal when the dashboard starts:
/// the cursor is hidden.
pub fn startup_commands() -> (cmds: Vec<DrawCmd>)
    ensures
        cmds_view(cmds@) == seq![CmdView::HideCursor],
{
    let mut cmds: Vec<DrawCmd> = Vec::new();
    cmds.push(DrawCmd::HideCursor);
    proof {
        assert(cmds_view(cmds@) =~= seq![CmdView::HideCursor]);
    }
    cmds
}

/// The commands that restore the terminal on shutdown: the cursor is
/// shown again, the screen cleared, colors reset, and the cursor moved
/// home.
pub fn shutdown_commands() -> (cmds: Vec<DrawCmd>)
    ensures
        cmds_view(cmds@) == seq![
            CmdView::ShowCursor,
            CmdView::ClearAll,
            CmdView::ResetColor,
            CmdView::MoveTo(0, 0),
        ],
{
    let mut cmds: Vec<DrawCmd> = Vec::new();
    cmds.push(DrawCmd::ShowCursor);
    cmds.push(DrawCmd::ClearAll);
    cmds.push(DrawCmd::ResetColor);
    cmds.push(DrawCmd::MoveTo(0, 0));
    proof {
        assert(cmds_view(cmds@) =~= seq![
            CmdView::ShowCursor,
            CmdView::ClearAll,
            CmdView::ResetColor,
            CmdView::MoveTo(0, 0),
        ]);
    }
    cmds
}

/// Reserved for a future menu row; changes nothing today.
#[allow(unused_variables)]
pub fn update_menu_header(selection: &mut (usize, usize), term_size: (u16, u16))
    ensures
        *final(selection) == *old(selection),
{
}

} // verus!
