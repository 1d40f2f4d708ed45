//! The per-frame draw-command sequence.
//!
//! One frame is a fixed list of shape commands in paint order: background
//! fill, two boundary half-arcs, the face ellipse, twelve hour labels, sixty
//! minute ticks, the three hands, the center pin, and for each eye its
//! socket and its pupil. Later commands occlude earlier ones. A command
//! carries exact fixed-point data only; the unverified front end turns
//! angles into sines and cosines when it draws.

use vstd::prelude::*;

use crate::angle::angle_units;
use crate::angle::calculate_angle;
use crate::angle::hour_angle_units;
use crate::angle::hour_hand_angle;
use crate::eyes::pupil_center;
use crate::eyes::pupil_center_spec;
use crate::eyes::EyeSocket;
use crate::layout::compute_layout;
use crate::layout::face_spec;
use crate::layout::hands_spec;
use crate::layout::ClockFace;
use crate::layout::HandSet;
use crate::layout::LayoutConfig;
use crate::timing::TimeSample;

verus! {

/// A color with red, green, blue and alpha channels in per-mille, so 1000
/// is full intensity.
#[derive(Clone, Copy, PartialEq, Eq, Structural, Debug)]
pub struct Color {
    pub red: u16,
    pub green: u16,
    pub blue: u16,
    pub alpha: u16,
}

/// The opaque background fill.
pub open spec fn background_color() -> Color {
    Color { red: 100, green: 100, blue: 200, alpha: 1000 }
}

/// White: boundary arcs, labels, ticks, hour and minute hands, pupils.
pub open spec fn white_color() -> Color {
    Color { red: 1000, green: 1000, blue: 1000, alpha: 1000 }
}

/// The blue of the face ellipse.
pub open spec fn face_color() -> Color {
    Color { red: 263, green: 431, blue: 839, alpha: 1000 }
}

/// The accent red of the second hand, the one hand drawn in a distinct
/// color.
pub open spec fn second_hand_color() -> Color {
    Color { red: 1000, green: 0, blue: 0, alpha: 1000 }
}

/// The darker blue of the center pin.
pub open spec fn pin_color() -> Color {
    Color { red: 125, green: 275, blue: 631, alpha: 1000 }
}

/// Black: the eye sockets.
pub open spec fn black_color() -> Color {
    Color { red: 0, green: 0, blue: 0, alpha: 1000 }
}

/// One primitive shape command. Lengths and coordinates are in hundredths
/// of a pixel, angles in pi/360 units, text sizes in whole points.
#[derive(Clone, Copy, PartialEq, Eq, Structural, Debug)]
pub enum DrawCmd {
    /// Fill the whole surface with one color.
    Clear { color: Color },
    /// An elliptical arc around the axis-aligned bounding box, from `start`
    /// to `end`.
    Arc {
        color: Color,
        thickness: i64,
        start: i64,
        end: i64,
        left: i64,
        top: i64,
        width: i64,
        height: i64,
    },
    /// A filled ellipse in the axis-aligned bounding box.
    Ellipse { color: Color, left: i64, top: i64, width: i64, height: i64 },
    /// The text of `value`, anchored where the direction `angle` leaves the
    /// ellipse with radii `radial_x`, `radial_y` around the center, then
    /// nudged by the fixed offset that optically centers the glyphs.
    Label {
        color: Color,
        size: u32,
        value: u64,
        center_x: i64,
        center_y: i64,
        radial_x: i64,
        radial_y: i64,
        angle: i64,
        nudge_x: i64,
        nudge_y: i64,
    },
    /// A line segment along direction `angle` from the center, from the
    /// inner elliptical radii to the outer ones.
    RadialLine {
        color: Color,
        thickness: i64,
        center_x: i64,
        center_y: i64,
        inner_x: i64,
        inner_y: i64,
        outer_x: i64,
        outer_y: i64,
        angle: i64,
    },
}

/// The background fill command.
pub open spec fn clear_cmd() -> DrawCmd {
    DrawCmd::Clear { color: background_color() }
}

/// One decorative boundary half-arc around the face bounding box.
pub open spec fn arc_cmd(face: ClockFace, start: int, end: int) -> DrawCmd {
    DrawCmd::Arc {
        color: white_color(),
        thickness: 600,
        start: start as i64,
        end: end as i64,
        left: (face.center_x - face.radius_x) as i64,
        top: (face.center_y - face.radius_y) as i64,
        width: (2 * face.radius_x) as i64,
        height: (2 * face.radius_y) as i64,
    }
}

/// The filled face ellipse.
pub open spec fn face_cmd(face: ClockFace) -> DrawCmd {
    DrawCmd::Ellipse {
        color: face_color(),
        left: (face.center_x - face.radius_x) as i64,
        top: (face.center_y - face.radius_y) as i64,
        width: (2 * face.radius_x) as i64,
        height: (2 * face.radius_y) as i64,
    }
}

/// The hour label `k`, pulled in from the rim by the text offset factor and
/// nudged ten pixels left and down to center the glyphs.
pub open spec fn label_cmd(face: ClockFace, cfg: LayoutConfig, k: int) -> DrawCmd {
    DrawCmd::Label {
        color: white_color(),
        size: 29,
        value: k as u64,
        center_x: face.center_x,
        center_y: face.center_y,
        radial_x: (face.radius_x * cfg.text_offset_permille / 1000) as i64,
        radial_y: (face.radius_y * cfg.text_offset_permille / 1000) as i64,
        angle: (k * 60 - 180) as i64,
        nudge_x: -1000i64,
        nudge_y: 1000,
    }
}

/// The labels 1 through `n` in dial order.
pub open spec fn label_cmds_upto(face: ClockFace, cfg: LayoutConfig, n: int) -> Seq<DrawCmd>
    decreases n,
{
    if n <= 0 {
        Seq::empty()
    } else {
        label_cmds_upto(face, cfg, n - 1).push(label_cmd(face, cfg, n))
    }
}

/// The tick at minute `m`: long and thick at each five-minute position,
/// short and thin elsewhere, growing inward from the rim.
pub open spec fn tick_cmd(face: ClockFace, cfg: LayoutConfig, m: int) -> DrawCmd {
    let length = if m % 5 == 0 {
        cfg.long_tick_length
    } else {
        cfg.short_tick_length
    };
    let thickness: i64 = if m % 5 == 0 {
        260
    } else {
        120
    };
    DrawCmd::RadialLine {
        color: white_color(),
        thickness,
        center_x: face.center_x,
        center_y: face.center_y,
        inner_x: (face.radius_x - length) as i64,
        inner_y: (face.radius_y - length) as i64,
        outer_x: face.radius_x,
        outer_y: face.radius_y,
        angle: (m * 12 - 180) as i64,
    }
}

/// The ticks for minutes 0 through `n - 1` in dial order.
pub open spec fn tick_cmds_upto(face: ClockFace, cfg: LayoutConfig, n: int) -> Seq<DrawCmd>
    decreases n,
{
    if n <= 0 {
        Seq::empty()
    } else {
        tick_cmds_upto(face, cfg, n - 1).push(tick_cmd(face, cfg, n - 1))
    }
}

/// One hand: a line from the dial center, `length` long, along `angle`.
pub open spec fn hand_cmd(face: ClockFace, length: i64, angle: int, thickness: i64, color: Color) -> DrawCmd {
    DrawCmd::RadialLine {
        color,
        thickness,
        center_x: face.center_x,
        center_y: face.center_y,
        inner_x: 0,
        inner_y: 0,
        outer_x: length,
        outer_y: length,
        angle: angle as i64,
    }
}

/// The three hands in draw order: hour and minute in white, then the second
/// hand in the accent red that keeps it tellable from the others.
pub open spec fn hand_cmds(face: ClockFace, hands: HandSet, t: TimeSample) -> Seq<DrawCmd> {
    seq![
        hand_cmd(
            face,
            hands.hour_length,
            hour_angle_units(t.hours as int, t.minutes as int),
            400,
            white_color(),
        ),
        hand_cmd(
            face,
            hands.minute_length,
            angle_units(t.minutes as int, 60, 180),
            250,
            white_color(),
        ),
        hand_cmd(
            face,
            hands.second_length,
            angle_units(t.seconds as int, 60, 180),
            200,
            second_hand_color(),
        ),
    ]
}

/// The small filled circle over the hand bases, drawn last of the dial so
/// it occludes all three.
pub open spec fn pin_cmd(face: ClockFace) -> DrawCmd {
    DrawCmd::Ellipse {
        color: pin_color(),
        left: (face.center_x - 800) as i64,
        top: (face.center_y - 800) as i64,
        width: 1600,
        height: 1600,
    }
}

/// The left eye socket: 100 pixels left of and 150 above the dial center,
/// with 50 by 30 pixel radii and a 10 pixel pupil.
pub open spec fn left_socket_spec(face: ClockFace) -> EyeSocket {
    EyeSocket {
        center_x: (face.center_x - 10_000) as i64,
        center_y: (face.center_y - 15_000) as i64,
        radius_x: 5_000,
        radius_y: 3_000,
        pupil_radius: 1_000,
    }
}

/// The right eye socket, mirrored 100 pixels right of the dial center.
pub open spec fn right_socket_spec(face: ClockFace) -> EyeSocket {
    EyeSocket {
        center_x: (face.center_x + 10_000) as i64,
        center_y: (face.center_y - 15_000) as i64,
        radius_x: 5_000,
        radius_y: 3_000,
        pupil_radius: 1_000,
    }
}

/// The socket ellipse of one eye.
pub open spec fn socket_cmd(socket: EyeSocket) -> DrawCmd {
    DrawCmd::Ellipse {
        color: black_color(),
        left: (socket.center_x - socket.radius_x) as i64,
        top: (socket.center_y - socket.radius_y) as i64,
        width: (2 * socket.radius_x) as i64,
        height: (2 * socket.radius_y) as i64,
    }
}

/// The pupil of one eye, a filled circle at the tracked pupil center.
pub open spec fn pupil_cmd(socket: EyeSocket, px: int, py: int) -> DrawCmd {
    let (ux, uy) = pupil_center_spec(socket, px, py);
    DrawCmd::Ellipse {
        color: white_color(),
        left: (ux - socket.pupil_radius) as i64,
        top: (uy - socket.pupil_radius) as i64,
        width: (2 * socket.pupil_radius) as i64,
        height: (2 * socket.pupil_radius) as i64,
    }
}

/// Socket, then pupil, for one eye.
pub open spec fn eye_cmds(socket: EyeSocket, px: int, py: int) -> Seq<DrawCmd> {
    seq![socket_cmd(socket), pupil_cmd(socket, px, py)]
}

/// The background, the two boundary half-arcs and the face ellipse.
pub open spec fn base_cmds(face: ClockFace) -> Seq<DrawCmd> {
    seq![clear_cmd(), arc_cmd(face, 0, 360), arc_cmd(face, 360, 720), face_cmd(face)]
}

/// The whole frame for the given window size, time sample and pointer
/// position: a pure function of its inputs, so identical inputs always give
/// the identical command sequence.
pub open spec fn frame_spec(
    width: int,
    height: int,
    t: TimeSample,
    px: int,
    py: int,
    cfg: LayoutConfig,
) -> Seq<DrawCmd> {
    let face = face_spec(width, height, cfg);
    let hands = hands_spec(width, height, cfg);
    base_cmds(face) + label_cmds_upto(face, cfg, 12) + tick_cmds_upto(face, cfg, 60) + hand_cmds(
        face,
        hands,
        t,
    ) + seq![pin_cmd(face)] + eye_cmds(left_socket_spec(face), px, py) + eye_cmds(
        right_socket_spec(face),
        px,
        py,
    )
}

/// The label sequence holds one command per label.
proof fn lemma_label_cmds_len(face: ClockFace, cfg: LayoutConfig, n: int)
    requires
        n >= 0,
    ensures
        label_cmds_upto(face, cfg, n).len() == n,
    decreases n,
{
    if n > 0 {
        lemma_label_cmds_len(face, cfg, n - 1);
    }
}

/// The tick sequence holds one command per tick.
proof fn lemma_tick_cmds_len(face: ClockFace, cfg: LayoutConfig, n: int)
    requires
        n >= 0,
    ensures
        tick_cmds_upto(face, cfg, n).len() == n,
    decreases n,
{
    if n > 0 {
        lemma_tick_cmds_len(face, cfg, n - 1);
    }
}

/// A frame is always the same 84 commands: background, two arcs, the face,
/// twelve labels, sixty ticks, three hands, the pin, and two commands for
/// each of the two eyes.
pub proof fn lemma_frame_len(
    width: int,
    height: int,
    t: TimeSample,
    px: int,
    py: int,
    cfg: LayoutConfig,
)
    ensures
        frame_spec(width, height, t, px, py, cfg).len() == 84,
{
    let face = face_spec(width, height, cfg);
    lemma_label_cmds_len(face, cfg, 12);
    lemma_tick_cmds_len(face, cfg, 60);
}

/// Rendering holds no hidden state: two frames computed from the same
/// window size, time sample, pointer position and configuration are the
/// same command sequence.
pub proof fn lemma_frame_deterministic(
    first: Seq<DrawCmd>,
    second: Seq<DrawCmd>,
    width: int,
    height: int,
    t: TimeSample,
    px: int,
    py: int,
    cfg: LayoutConfig,
)
    requires
        first == frame_spec(width, height, t, px, py, cfg),
        second == frame_spec(width, height, t, px, py, cfg),
    ensures
        first == second,
{
}

/// Appends the background, arc and face commands.
fn push_base(cmds: &mut Vec<DrawCmd>, face: &ClockFace)
    requires
        face.wf(),
    ensures
        final(cmds)@ == old(cmds)@ + base_cmds(*face),
{
    cmds.push(DrawCmd::Clear { color: Color { red: 100, green: 100, blue: 200, alpha: 1000 } });
    let left: i64 = face.center_x - face.radius_x;
    let top: i64 = face.center_y - face.radius_y;
    let width: i64 = 2 * face.radius_x;
    let height: i64 = 2 * face.radius_y;
    let white = Color { red: 1000, green: 1000, blue: 1000, alpha: 1000 };
    cmds.push(
        DrawCmd::Arc { color: white, thickness: 600, start: 0, end: 360, left, top, width, height },
    );
    cmds.push(
        DrawCmd::Arc {
            color: white,
            thickness: 600,
            start: 360,
            end: 720,
            left,
            top,
            width,
            height,
        },
    );
    cmds.push(
        DrawCmd::Ellipse {
            color: Color { red: 263, green: 431, blue: 839, alpha: 1000 },
            left,
            top,
            width,
            height,
        },
    );
    assert(cmds@ =~= old(cmds)@ + base_cmds(*face));
}

/// Appends the twelve hour labels.
fn push_labels(cmds: &mut Vec<DrawCmd>, face: &ClockFace, cfg: &LayoutConfig)
    requires
        face.wf(),
        cfg.wf(),
    ensures
        final(cmds)@ == old(cmds)@ + label_cmds_upto(*face, *cfg, 12),
{
    proof {
        assert(face.radius_x * cfg.text_offset_permille <= 100_000_000_000) by (nonlinear_arith)
            requires
                0 <= face.radius_x <= 100_000_000,
                0 <= cfg.text_offset_permille <= 1000,
        ;
        assert(face.radius_y * cfg.text_offset_permille <= 100_000_000_000) by (nonlinear_arith)
            requires
                0 <= face.radius_y <= 100_000_000,
                0 <= cfg.text_offset_permille <= 1000,
        ;
        assert(face.radius_x * cfg.text_offset_permille >= 0) by (nonlinear_arith)
            requires
                0 <= face.radius_x,
                0 <= cfg.text_offset_permille,
        ;
        assert(face.radius_y * cfg.text_offset_permille >= 0) by (nonlinear_arith)
            requires
                0 <= face.radius_y,
                0 <= cfg.text_offset_permille,
        ;
    }
    let radial_x: i64 = ((face.radius_x as u64) * (cfg.text_offset_permille as u64) / 1000) as i64;
    let radial_y: i64 = ((face.radius_y as u64) * (cfg.text_offset_permille as u64) / 1000) as i64;
    let mut k: u64 = 1;
    while k <= 12
        invariant
            1 <= k <= 13,
            face.wf(),
            cfg.wf(),
            radial_x == face.radius_x * cfg.text_offset_permille / 1000,
            radial_y == face.radius_y * cfg.text_offset_permille / 1000,
            cmds@ == old(cmds)@ + label_cmds_upto(*face, *cfg, k - 1),
        decreases 13 - k,
    {
        cmds.push(
            DrawCmd::Label {
                color: Color { red: 1000, green: 1000, blue: 1000, alpha: 1000 },
                size: 29,
                value: k,
                center_x: face.center_x,
                center_y: face.center_y,
                radial_x,
                radial_y,
                angle: (k as i64) * 60 - 180,
                nudge_x: -1000,
                nudge_y: 1000,
            },
        );
        proof {
            assert(cmds@ =~= old(cmds)@ + label_cmds_upto(*face, *cfg, k as int));
        }
        k = k + 1;
    }
}

/// Appends the sixty minute ticks.
fn push_ticks(cmds: &mut Vec<DrawCmd>, face: &ClockFace, cfg: &LayoutConfig)
    requires
        face.wf(),
        cfg.wf(),
    ensures
        final(cmds)@ == old(cmds)@ + tick_cmds_upto(*face, *cfg, 60),
{
    let mut m: u64 = 0;
    while m < 60
        invariant
            m <= 60,
            face.wf(),
            cfg.wf(),
            cmds@ == old(cmds)@ + tick_cmds_upto(*face, *cfg, m as int),
        decreases 60 - m,
    {
        let long = m % 5 == 0;
        let length: i64 = if long {
            cfg.long_tick_length
        } else {
            cfg.short_tick_length
        };
        let thickness: i64 = if long {
            260
        } else {
            120
        };
        cmds.push(
            DrawCmd::RadialLine {
                color: Color { red: 1000, green: 1000, blue: 1000, alpha: 1000 },
                thickness,
                center_x: face.center_x,
                center_y: face.center_y,
                inner_x: face.radius_x - length,
                inner_y: face.radius_y - length,
                outer_x: face.radius_x,
                outer_y: face.radius_y,
                angle: (m as i64) * 12 - 180,
            },
        );
        proof {
            assert(cmds@ =~= old(cmds)@ + tick_cmds_upto(*face, *cfg, m + 1));
        }
        m = m + 1;
    }
}

/// Appends the three hands.
fn push_hands(cmds: &mut Vec<DrawCmd>, face: &ClockFace, hands: &HandSet, t: &TimeSample)
    requires
        face.wf(),
        t.wf(),
    ensures
        final(cmds)@ == old(cmds)@ + hand_cmds(*face, *hands, *t),
{
    let white = Color { red: 1000, green: 1000, blue: 1000, alpha: 1000 };
    let hour_angle: i64 = hour_hand_angle(t.hours, t.minutes);
    let minute_angle: i64 = calculate_angle(t.minutes, 60, 180);
    let second_angle: i64 = calculate_angle(t.seconds, 60, 180);
    cmds.push(
        DrawCmd::RadialLine {
            color: white,
            thickness: 400,
            center_x: face.center_x,
            center_y: face.center_y,
            inner_x: 0,
            inner_y: 0,
            outer_x: hands.hour_length,
            outer_y: hands.hour_length,
            angle: hour_angle,
        },
    );
    cmds.push(
        DrawCmd::RadialLine {
            color: white,
            thickness: 250,
            center_x: face.center_x,
            center_y: face.center_y,
            inner_x: 0,
            inner_y: 0,
            outer_x: hands.minute_length,
            outer_y: hands.minute_length,
            angle: minute_angle,
        },
    );
    cmds.push(
        DrawCmd::RadialLine {
            color: Color { red: 1000, green: 0, blue: 0, alpha: 1000 },
            thickness: 200,
            center_x: face.center_x,
            center_y: face.center_y,
            inner_x: 0,
            inner_y: 0,
            outer_x: hands.second_length,
            outer_y: hands.second_length,
            angle: second_angle,
        },
    );
    assert(cmds@ =~= old(cmds)@ + hand_cmds(*face, *hands, *t));
}

/// Appends the socket and pupil of one eye.
fn push_eye(cmds: &mut Vec<DrawCmd>, socket: &EyeSocket, px: i64, py: i64)
    requires
        socket.wf(),
        -1_000_000_000 <= px <= 1_000_000_000,
        -1_000_000_000 <= py <= 1_000_000_000,
    ensures
        final(cmds)@ == old(cmds)@ + eye_cmds(*socket, px as int, py as int),
{
    cmds.push(
        DrawCmd::Ellipse {
            color: Color { red: 0, green: 0, blue: 0, alpha: 1000 },
            left: socket.center_x - socket.radius_x,
            top: socket.center_y - socket.radius_y,
            width: 2 * socket.radius_x,
            height: 2 * socket.radius_y,
        },
    );
    let (ux, uy) = pupil_center(socket, px, py);
    cmds.push(
        DrawCmd::Ellipse {
            color: Color { red: 1000, green: 1000, blue: 1000, alpha: 1000 },
            left: ux - socket.pupil_radius,
            top: uy - socket.pupil_radius,
            width: 2 * socket.pupil_radius,
            height: 2 * socket.pupil_radius,
        },
    );
    assert(cmds@ =~= old(cmds)@ + eye_cmds(*socket, px as int, py as int));
}

/// Computes the full draw-command sequence for one frame from the window
/// size in pixels, the time sample, the latest pointer sample in hundredths
/// of a pixel, and the layout configuration.
pub fn render_frame(
    width_px: u32,
    height_px: u32,
    t: &TimeSample,
    pointer_x: i64,
    pointer_y: i64,
    cfg: &LayoutConfig,
) -> (cmds: Vec<DrawCmd>)
    requires
        cfg.wf(),
        t.wf(),
        width_px <= 1_000_000,
        height_px <= 1_000_000,
        -1_000_000_000 <= pointer_x <= 1_000_000_000,
        -1_000_000_000 <= pointer_y <= 1_000_000_000,
    ensures
        cmds@ == frame_spec(
            width_px as int,
            height_px as int,
            *t,
            pointer_x as int,
            pointer_y as int,
            *cfg,
        ),
{
    let (face, hands) = compute_layout(width_px, height_px, cfg);
    let mut cmds: Vec<DrawCmd> = Vec::new();
    push_base(&mut cmds, &face);
    push_labels(&mut cmds, &face, cfg);
    push_ticks(&mut cmds, &face, cfg);
    push_hands(&mut cmds, &face, &hands, t);
    cmds.push(
        DrawCmd::Ellipse {
            color: Color { red: 125, green: 275, blue: 631, alpha: 1000 },
            left: face.center_x - 800,
            top: face.center_y - 800,
            width: 1600,
            height: 1600,
        },
    );
    let left_socket = EyeSocket {
        center_x: face.center_x - 10_000,
        center_y: face.center_y - 15_000,
        radius_x: 5_000,
        radius_y: 3_000,
        pupil_radius: 1_000,
    };
    let right_socket = EyeSocket {
        center_x: face.center_x + 10_000,
        center_y: face.center_y - 15_000,
        radius_x: 5_000,
        radius_y: 3_000,
        pupil_radius: 1_000,
    };
    push_eye(&mut cmds, &left_socket, pointer_x, pointer_y);
    push_eye(&mut cmds, &right_socket, pointer_x, pointer_y);
    proof {
        assert(cmds@ =~= frame_spec(
            width_px as int,
            height_px as int,
            *t,
            pointer_x as int,
            pointer_y as int,
            *cfg,
        ));
    }
    cmds
}

} // verus!
