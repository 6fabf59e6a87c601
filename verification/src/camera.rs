use vstd::prelude::*;
use vstd::string::StringExecFns;
use crate::math::{Mat4Cols, Vec3Bits, ONE_BITS};
use crate::reflect::{block_decl, block_decl_text, FieldKind, FieldTable, GlslPrim};
use crate::shader::ShaderBlockDef;
use crate::std140::{std140_size, GlmStd140Ext, Std140Value};

verus! {

/// The bit pattern of 2.5f32: the default movement speed.
pub const DEFAULT_SPEED_BITS: u32 = 0x4020_0000;

/// The bit pattern of 0.25f32: the default mouse sensitivity.
pub const DEFAULT_SENSITIVITY_BITS: u32 = 0x3E80_0000;

/// The pitch clamp bound, in millidegrees: pitch stays in [-89°, 89°],
/// strictly short of ±90° so the look-at matrix never degenerates with the
/// view direction parallel to the up vector.
pub const PITCH_LIMIT_MDEG: i64 = 89_000;

/// The free-look camera: position and up vector as float bit patterns, yaw
/// and pitch in millidegrees, and a fixed projection matrix. The view matrix
/// is derived by the embedder from these angles, never stored.
pub struct Camera {
    /// World-space position (bit patterns; moved by the embedder).
    pub pos: Vec3Bits,
    /// The fixed world up axis.
    pub up: Vec3Bits,
    /// Movement speed in units per second (a bit pattern for the embedder).
    pub speed: u32,
    /// Mouse sensitivity in degrees per count (a bit pattern).
    pub sensitivity: u32,
    /// Pitch in millidegrees, always within `[-PITCH_LIMIT_MDEG, PITCH_LIMIT_MDEG]`.
    pub pitch: i64,
    /// Yaw in millidegrees, unbounded.
    pub yaw: i64,
    /// The fixed projection matrix (bit patterns, column-major).
    pub projection: Mat4Cols,
}

impl Camera {
    /// Pitch never leaves the clamped interval.
    pub open spec fn wf(&self) -> bool {
        -PITCH_LIMIT_MDEG <= self.pitch <= PITCH_LIMIT_MDEG
    }

    /// A camera at `pos` with the given projection and initial angles; the
    /// initial pitch is clamped like every later one, and the up axis is the
    /// world +Y.
    pub fn new(pos: Vec3Bits, projection: Mat4Cols, yaw: i64, pitch: i64) -> (r: Camera)
        ensures
            r.wf(),
            r.pos == pos,
            r.projection == projection,
            r.yaw == yaw,
            r.pitch == clamp_pitch(pitch as int),
            r.up == (Vec3Bits { x: 0, y: ONE_BITS, z: 0 }),
            r.speed == DEFAULT_SPEED_BITS,
            r.sensitivity == DEFAULT_SENSITIVITY_BITS,
    {
        Camera {
            pos,
            up: Vec3Bits { x: 0, y: ONE_BITS, z: 0 },
            speed: DEFAULT_SPEED_BITS,
            sensitivity: DEFAULT_SENSITIVITY_BITS,
            pitch: clamp_pitch_exec(pitch),
            yaw,
            projection,
        }
    }

    /// Applies one sample of mouse input, in millidegrees: yaw accumulates,
    /// and pitch is clamped to the closed interval [-89°, 89°] whatever the
    /// cumulative input was.
    pub fn update(&mut self, yaw_delta: i64, pitch_delta: i64)
        requires
            i64::MIN <= old(self).yaw + yaw_delta <= i64::MAX,
            i64::MIN <= old(self).pitch + pitch_delta <= i64::MAX,
        ensures
            final(self).yaw == old(self).yaw + yaw_delta,
            final(self).pitch == clamp_pitch(old(self).pitch + pitch_delta),
            final(self).wf(),
            final(self).pos == old(self).pos,
            final(self).up == old(self).up,
            final(self).speed == old(self).speed,
            final(self).sensitivity == old(self).sensitivity,
            final(self).projection == old(self).projection,
    {
        self.yaw = self.yaw + yaw_delta;
        self.pitch = clamp_pitch_exec(self.pitch + pitch_delta);
    }

    /// Moves the camera: the embedder computes the world-space step from the
    /// derived basis vectors.
    pub fn set_pos(&mut self, pos: Vec3Bits)
        ensures
            final(self).pos == pos,
            final(self).up == old(self).up,
            final(self).speed == old(self).speed,
            final(self).sensitivity == old(self).sensitivity,
            final(self).pitch == old(self).pitch,
            final(self).yaw == old(self).yaw,
            final(self).projection == old(self).projection,
    {
        self.pos = pos;
    }

    /// Assembles the camera's uniform block from its position, the derived
    /// view matrix and the fixed projection.
    pub fn uniform_block(&self, view: Mat4Cols) -> (r: CameraBlock)
        ensures
            r.view_pos == self.pos,
            r.view == view,
            r.projection == self.projection,
    {
        CameraBlock { view_pos: self.pos, view, projection: self.projection }
    }
}

/// Pitch clamped to the closed interval [-89°, 89°] in millidegrees.
pub open spec fn clamp_pitch(pitch: int) -> int {
    if pitch < -PITCH_LIMIT_MDEG {
        -PITCH_LIMIT_MDEG as int
    } else if pitch > PITCH_LIMIT_MDEG {
        PITCH_LIMIT_MDEG as int
    } else {
        pitch
    }
}

/// Pitch clamped to the closed interval [-89°, 89°] in millidegrees.
fn clamp_pitch_exec(pitch: i64) -> (r: i64)
    ensures
        r == clamp_pitch(pitch as int),
        -PITCH_LIMIT_MDEG <= r <= PITCH_LIMIT_MDEG,
{
    if pitch < -PITCH_LIMIT_MDEG {
        -PITCH_LIMIT_MDEG
    } else if pitch > PITCH_LIMIT_MDEG {
        PITCH_LIMIT_MDEG
    } else {
        pitch
    }
}

/// The camera state shared with every shader through one std140 uniform
/// block: view position, view matrix and projection matrix.
#[derive(Clone, Copy, PartialEq, Eq, Structural, Debug)]
pub struct CameraBlock {
    pub view_pos: Vec3Bits,
    pub view: Mat4Cols,
    pub projection: Mat4Cols,
}

/// The byte size of the camera block under the std140 rules: a vec3 at
/// offset 0, then two 16-byte-aligned mat4s at offsets 16 and 80.
pub const CAMERA_BLOCK_SIZE: u32 = 144;

impl CameraBlock {
    /// The block's fields in declaration order, as std140 values.
    pub fn to_fields(&self) -> (r: Vec<Std140Value>)
        ensures
            r@ == seq![
                Std140Value::Vec3(self.view_pos),
                Std140Value::Mat4(self.view.c0, self.view.c1, self.view.c2, self.view.c3),
                Std140Value::Mat4(
                    self.projection.c0,
                    self.projection.c1,
                    self.projection.c2,
                    self.projection.c3,
                ),
            ],
            std140_size(r@) == CAMERA_BLOCK_SIZE,
    {
        let mut fields: Vec<Std140Value> = Vec::new();
        fields.push(self.view_pos.to_std140());
        fields.push(self.view.to_std140());
        fields.push(self.projection.to_std140());
        proof {
            assert(fields@ =~= seq![
                Std140Value::Vec3(self.view_pos),
                Std140Value::Mat4(self.view.c0, self.view.c1, self.view.c2, self.view.c3),
                Std140Value::Mat4(
                    self.projection.c0,
                    self.projection.c1,
                    self.projection.c2,
                    self.projection.c3,
                ),
            ]);
            lemma_camera_block_size(fields@);
        }
        fields
    }
}

/// The camera block's std140 size is 144 bytes: 16 for the padded vec3 and
/// 64 for each mat4.
proof fn lemma_camera_block_size(fields: Seq<Std140Value>)
    requires
        fields.len() == 3,
        fields[0] is Vec3,
        fields[1] is Mat4,
        fields[2] is Mat4,
    ensures
        std140_size(fields) == 144,
{
    let f1 = fields.drop_first();
    let f2 = f1.drop_first();
    let f3 = f2.drop_first();
    assert(f3 =~= Seq::<Std140Value>::empty());
    assert(f2[0] == fields[2]);
    assert(f1[0] == fields[1]);
    assert(crate::std140::pad_for(0, 16) == 0);
    assert(crate::std140::pad_for(12, 16) == 4);
    assert(crate::std140::pad_for(80, 16) == 0);
    assert(crate::std140::pad_for(144, 16) == 0);
    assert(crate::std140::size_from(f3, 144) == 144);
    assert(crate::std140::size_from(f2, 80) == 144);
    assert(crate::std140::size_from(f1, 12) == 144);
    assert(crate::std140::size_from(fields, 0) == 144);
}

/// The reflected field table of the camera block.
pub open spec fn camera_block_fields() -> FieldTable {
    seq![
        ("view_pos"@, FieldKind::Scalar(GlslPrim::Vec3)),
        ("view"@, FieldKind::Scalar(GlslPrim::Mat4)),
        ("projection"@, FieldKind::Scalar(GlslPrim::Mat4)),
    ]
}

impl ShaderBlockDef for CameraBlock {
    open spec fn spec_block_def() -> Seq<char> {
        block_decl_text("CameraBlock"@, camera_block_fields())
    }

    fn block_def() -> (r: String)
        ensures
            r@ == Self::spec_block_def(),
    {
        let mut fields: Vec<(String, FieldKind)> = Vec::new();
        fields.push(("view_pos".to_owned(), FieldKind::Scalar(GlslPrim::Vec3)));
        fields.push(("view".to_owned(), FieldKind::Scalar(GlslPrim::Mat4)));
        fields.push(("projection".to_owned(), FieldKind::Scalar(GlslPrim::Mat4)));
        proof {
            assert(fields.deep_view() =~= camera_block_fields());
        }
        block_decl("CameraBlock", &fields)
    }
}

} // verus!
