use vstd::prelude::*;
use vstd::bytes::{spec_u32_from_le_bytes, spec_u32_to_le_bytes, u32_to_le_bytes};
use crate::command::{BufferTarget, BufferUsage, CmdV, GlCommand};
use crate::math::{Mat4Cols, Vec3Bits, Vec4Bits};
use crate::shader::{push_cmd, UniformValue};

verus! {

/// One field of a uniform-block value, in the layouts the std140 rules give
/// a name to. Float components are IEEE-754 bit patterns.
#[derive(Clone, Copy, PartialEq, Eq, Structural, Debug)]
pub enum Std140Value {
    /// A `float`: 4-byte size and alignment.
    Float(u32),
    /// A `vec3`: 12-byte size, 16-byte alignment.
    Vec3(Vec3Bits),
    /// A `vec4`: 16-byte size and alignment.
    Vec4(Vec4Bits),
    /// A `mat4`: four 16-byte columns, 16-byte alignment, column-major.
    Mat4(Vec4Bits, Vec4Bits, Vec4Bits, Vec4Bits),
}

/// The field's layout kind, without its payload: the static shape of a
/// block.
#[derive(Clone, Copy, PartialEq, Eq, Structural, Debug)]
pub enum Std140Kind {
    Float,
    Vec3,
    Vec4,
    Mat4,
}

/// The layout kind of a field value.
pub open spec fn kind_of(v: Std140Value) -> Std140Kind {
    match v {
        Std140Value::Float(_) => Std140Kind::Float,
        Std140Value::Vec3(_) => Std140Kind::Vec3,
        Std140Value::Vec4(_) => Std140Kind::Vec4,
        Std140Value::Mat4(_, _, _, _) => Std140Kind::Mat4,
    }
}

/// The kinds of each field of a block value, in order.
pub open spec fn kinds_of(values: Seq<Std140Value>) -> Seq<Std140Kind> {
    values.map_values(|v: Std140Value| kind_of(v))
}

/// The std140 alignment of a field kind.
pub open spec fn kind_align(k: Std140Kind) -> nat {
    match k {
        Std140Kind::Float => 4,
        Std140Kind::Vec3 => 16,
        Std140Kind::Vec4 => 16,
        Std140Kind::Mat4 => 16,
    }
}

/// The number of bytes a field kind occupies.
pub open spec fn kind_size(k: Std140Kind) -> nat {
    match k {
        Std140Kind::Float => 4,
        Std140Kind::Vec3 => 12,
        Std140Kind::Vec4 => 16,
        Std140Kind::Mat4 => 64,
    }
}

/// The padding inserted before offset `off` to reach alignment `align`.
pub open spec fn pad_for(off: nat, align: nat) -> nat
    recommends
        align > 0,
{
    (((align - off % align) % align as int)) as nat
}

/// `n` zero bytes of padding.
pub open spec fn zero_bytes(n: nat) -> Seq<u8> {
    Seq::new(n, |i: int| 0u8)
}

/// The 16 payload bytes of one `vec4`-shaped column.
pub open spec fn vec4_bytes(v: Vec4Bits) -> Seq<u8> {
    spec_u32_to_le_bytes(v.x) + spec_u32_to_le_bytes(v.y) + spec_u32_to_le_bytes(v.z)
        + spec_u32_to_le_bytes(v.w)
}

/// The payload bytes of one field: components in order, each as 4
/// little-endian bytes.
pub open spec fn value_bytes(v: Std140Value) -> Seq<u8> {
    match v {
        Std140Value::Float(b) => spec_u32_to_le_bytes(b),
        Std140Value::Vec3(xyz) => spec_u32_to_le_bytes(xyz.x) + spec_u32_to_le_bytes(xyz.y)
            + spec_u32_to_le_bytes(xyz.z),
        Std140Value::Vec4(v4) => vec4_bytes(v4),
        Std140Value::Mat4(c0, c1, c2, c3) => vec4_bytes(c0) + vec4_bytes(c1) + vec4_bytes(c2)
            + vec4_bytes(c3),
    }
}

/// The bytes a block value contributes from offset `off` on: padding up to
/// each field's alignment, the field's payload, and a final padding of the
/// whole struct to a 16-byte boundary.
pub open spec fn encode_from(values: Seq<Std140Value>, off: nat) -> Seq<u8>
    decreases values,
{
    if values.len() == 0 {
        zero_bytes(pad_for(off, 16))
    } else {
        let pad = pad_for(off, kind_align(kind_of(values[0])));
        zero_bytes(pad) + value_bytes(values[0]) + encode_from(
            values.drop_first(),
            off + pad + kind_size(kind_of(values[0])),
        )
    }
}

/// The std140 encoding of a block value: tightly packed per the scalar and
/// vector alignment rules, padded to a 16-byte boundary at the end.
pub open spec fn std140_encode(values: Seq<Std140Value>) -> Seq<u8> {
    encode_from(values, 0)
}

/// The offset just past the encoding that starts at `off`.
pub open spec fn size_from(values: Seq<Std140Value>, off: nat) -> nat
    decreases values,
{
    if values.len() == 0 {
        off + pad_for(off, 16)
    } else {
        let pad = pad_for(off, kind_align(kind_of(values[0])));
        size_from(values.drop_first(), off + pad + kind_size(kind_of(values[0])))
    }
}

/// The size in bytes of a block value's std140 encoding.
pub open spec fn std140_size(values: Seq<Std140Value>) -> nat {
    size_from(values, 0)
}

/// The payload of each field is as long as its kind says.
proof fn lemma_value_bytes_len(v: Std140Value)
    ensures
        value_bytes(v).len() == kind_size(kind_of(v)),
{
    vstd::bytes::lemma_auto_spec_u32_to_from_le_bytes();
}

/// The encoding starting at `off` runs exactly to `size_from`.
proof fn lemma_encode_len(values: Seq<Std140Value>, off: nat)
    ensures
        off + encode_from(values, off).len() == size_from(values, off),
    decreases values,
{
    if values.len() == 0 {
    } else {
        let pad = pad_for(off, kind_align(kind_of(values[0])));
        lemma_value_bytes_len(values[0]);
        lemma_encode_len(values.drop_first(), off + pad + kind_size(kind_of(values[0])));
    }
}

/// The encoded size of a block value.
pub proof fn lemma_std140_encode_len(values: Seq<Std140Value>)
    ensures
        std140_encode(values).len() == std140_size(values),
{
    lemma_encode_len(values, 0);
}

/// One field read back from offset `off` of an encoded buffer.
pub open spec fn decode_value(k: Std140Kind, bytes: Seq<u8>, off: nat) -> Std140Value {
    match k {
        Std140Kind::Float => Std140Value::Float(
            spec_u32_from_le_bytes(bytes.subrange(off as int, off as int + 4)),
        ),
        Std140Kind::Vec3 => Std140Value::Vec3(
            Vec3Bits {
                x: spec_u32_from_le_bytes(bytes.subrange(off as int, off as int + 4)),
                y: spec_u32_from_le_bytes(bytes.subrange(off as int + 4, off as int + 8)),
                z: spec_u32_from_le_bytes(bytes.subrange(off as int + 8, off as int + 12)),
            },
        ),
        Std140Kind::Vec4 => Std140Value::Vec4(decode_vec4(bytes, off)),
        Std140Kind::Mat4 => Std140Value::Mat4(
            decode_vec4(bytes, off),
            decode_vec4(bytes, off + 16),
            decode_vec4(bytes, off + 32),
            decode_vec4(bytes, off + 48),
        ),
    }
}

/// One `vec4`-shaped column read back from offset `off`.
pub open spec fn decode_vec4(bytes: Seq<u8>, off: nat) -> Vec4Bits {
    Vec4Bits {
        x: spec_u32_from_le_bytes(bytes.subrange(off as int, off as int + 4)),
        y: spec_u32_from_le_bytes(bytes.subrange(off as int + 4, off as int + 8)),
        z: spec_u32_from_le_bytes(bytes.subrange(off as int + 8, off as int + 12)),
        w: spec_u32_from_le_bytes(bytes.subrange(off as int + 12, off as int + 16)),
    }
}

/// Reading a block of shape `kinds` back from an encoded buffer, walking
/// the same offsets the encoder wrote at.
pub open spec fn decode_from(kinds: Seq<Std140Kind>, bytes: Seq<u8>, off: nat) -> Seq<Std140Value>
    decreases kinds,
{
    if kinds.len() == 0 {
        Seq::empty()
    } else {
        let pad = pad_for(off, kind_align(kinds[0]));
        seq![decode_value(kinds[0], bytes, off + pad)] + decode_from(
            kinds.drop_first(),
            bytes,
            off + pad + kind_size(kinds[0]),
        )
    }
}

/// A field decodes back to itself from any buffer that holds its payload
/// bytes at `off`.
proof fn lemma_decode_value(v: Std140Value, bytes: Seq<u8>, off: nat)
    requires
        off + kind_size(kind_of(v)) <= bytes.len(),
        bytes.subrange(off as int, off as int + kind_size(kind_of(v)) as int) == value_bytes(v),
    ensures
        decode_value(kind_of(v), bytes, off) == v,
{
    vstd::bytes::lemma_auto_spec_u32_to_from_le_bytes();
    let vb = bytes.subrange(off as int, off as int + kind_size(kind_of(v)) as int);
    match v {
        Std140Value::Float(b) => {
            assert(bytes.subrange(off as int, off as int + 4) =~= vb.subrange(0, 4));
            assert(vb.subrange(0, 4) =~= spec_u32_to_le_bytes(b));
        },
        Std140Value::Vec3(xyz) => {
            assert(bytes.subrange(off as int, off as int + 4) =~= vb.subrange(0, 4));
            assert(bytes.subrange(off as int + 4, off as int + 8) =~= vb.subrange(4, 8));
            assert(bytes.subrange(off as int + 8, off as int + 12) =~= vb.subrange(8, 12));
            assert(vb.subrange(0, 4) =~= spec_u32_to_le_bytes(xyz.x));
            assert(vb.subrange(4, 8) =~= spec_u32_to_le_bytes(xyz.y));
            assert(vb.subrange(8, 12) =~= spec_u32_to_le_bytes(xyz.z));
        },
        Std140Value::Vec4(v4) => {
            lemma_decode_vec4(v4, bytes, off);
        },
        Std140Value::Mat4(c0, c1, c2, c3) => {
            assert(vec4_bytes(c0).len() == 16 && vec4_bytes(c1).len() == 16 && vec4_bytes(c2).len()
                == 16 && vec4_bytes(c3).len() == 16);
            assert(bytes.subrange(off as int, off as int + 16) =~= vb.subrange(0, 16));
            assert(bytes.subrange(off as int + 16, off as int + 32) =~= vb.subrange(16, 32));
            assert(bytes.subrange(off as int + 32, off as int + 48) =~= vb.subrange(32, 48));
            assert(bytes.subrange(off as int + 48, off as int + 64) =~= vb.subrange(48, 64));
            assert(vb.subrange(0, 16) =~= vec4_bytes(c0));
            assert(vb.subrange(16, 32) =~= vec4_bytes(c1));
            assert(vb.subrange(32, 48) =~= vec4_bytes(c2));
            assert(vb.subrange(48, 64) =~= vec4_bytes(c3));
            lemma_decode_vec4(c0, bytes, off);
            lemma_decode_vec4(c1, bytes, off + 16);
            lemma_decode_vec4(c2, bytes, off + 32);
            lemma_decode_vec4(c3, bytes, off + 48);
        },
    }
}

/// A `vec4`-shaped column decodes back to itself.
proof fn lemma_decode_vec4(v: Vec4Bits, bytes: Seq<u8>, off: nat)
    requires
        off + 16 <= bytes.len(),
        bytes.subrange(off as int, off as int + 16) == vec4_bytes(v),
    ensures
        decode_vec4(bytes, off) == v,
{
    vstd::bytes::lemma_auto_spec_u32_to_from_le_bytes();
    let vb = bytes.subrange(off as int, off as int + 16);
    assert(bytes.subrange(off as int, off as int + 4) =~= vb.subrange(0, 4));
    assert(bytes.subrange(off as int + 4, off as int + 8) =~= vb.subrange(4, 8));
    assert(bytes.subrange(off as int + 8, off as int + 12) =~= vb.subrange(8, 12));
    assert(bytes.subrange(off as int + 12, off as int + 16) =~= vb.subrange(12, 16));
    assert(vb.subrange(0, 4) =~= spec_u32_to_le_bytes(v.x));
    assert(vb.subrange(4, 8) =~= spec_u32_to_le_bytes(v.y));
    assert(vb.subrange(8, 12) =~= spec_u32_to_le_bytes(v.z));
    assert(vb.subrange(12, 16) =~= spec_u32_to_le_bytes(v.w));
}

/// Decoding commutes with the encoder at every offset: the encoded fields
/// placed after an arbitrary prefix decode back to the original value.
proof fn lemma_decode_encode_from(values: Seq<Std140Value>, prefix: Seq<u8>)
    ensures
        decode_from(
            kinds_of(values),
            prefix + encode_from(values, prefix.len()),
            prefix.len(),
        ) == values,
    decreases values,
{
    let off = prefix.len();
    let bytes = prefix + encode_from(values, off);
    if values.len() == 0 {
        assert(kinds_of(values) =~= Seq::<Std140Kind>::empty());
        assert(decode_from(kinds_of(values), bytes, off) =~= values);
    } else {
        let v0 = values[0];
        let k0 = kind_of(v0);
        assert(kinds_of(values)[0] == k0);
        assert(kinds_of(values).drop_first() =~= kinds_of(values.drop_first()));
        let pad = pad_for(off, kind_align(k0));
        lemma_value_bytes_len(v0);
        let prefix2 = prefix + zero_bytes(pad) + value_bytes(v0);
        assert(prefix2.len() == off + pad + kind_size(k0));
        assert(bytes =~= prefix2 + encode_from(values.drop_first(), prefix2.len()));
        lemma_decode_encode_from(values.drop_first(), prefix2);
        lemma_encode_len(values.drop_first(), prefix2.len());
        assert(bytes.len() == size_from(values.drop_first(), prefix2.len()));
        assert(prefix2.len() <= bytes.len());
        assert(bytes.subrange(
            (off + pad) as int,
            (off + pad) as int + kind_size(k0) as int,
        ) =~= value_bytes(v0));
        lemma_decode_value(v0, bytes, off + pad);
        assert(decode_from(kinds_of(values), bytes, off) =~= seq![v0] + values.drop_first());
        assert(seq![v0] + values.drop_first() =~= values);
    }
}

/// Round trip: reading an uploaded block back by its own shape yields the
/// uploaded value, field for field.
pub proof fn lemma_std140_round_trip(values: Seq<Std140Value>)
    ensures
        decode_from(kinds_of(values), std140_encode(values), 0) == values,
{
    let empty = Seq::<u8>::empty();
    assert(empty + encode_from(values, 0) =~= std140_encode(values));
    lemma_decode_encode_from(values, empty);
}

/// Appends the 4 little-endian bytes of one word.
fn push_u32_le(out: &mut Vec<u8>, x: u32)
    ensures
        final(out)@ == old(out)@ + spec_u32_to_le_bytes(x),
{
    let mut b = u32_to_le_bytes(x);
    out.append(&mut b);
}

/// Appends the 16 payload bytes of a `vec4`-shaped column.
fn push_vec4(out: &mut Vec<u8>, v: Vec4Bits)
    ensures
        final(out)@ == old(out)@ + vec4_bytes(v),
{
    let ghost prev = out@;
    push_u32_le(out, v.x);
    push_u32_le(out, v.y);
    push_u32_le(out, v.z);
    push_u32_le(out, v.w);
    proof {
        assert(out@ =~= prev + vec4_bytes(v));
    }
}

/// Appends zero bytes until the buffer length reaches the next multiple of
/// `align`.
fn push_padding(out: &mut Vec<u8>, align: usize)
    requires
        align > 0,
        old(out)@.len() + align <= usize::MAX,
    ensures
        final(out)@ == old(out)@ + zero_bytes(pad_for(old(out)@.len(), align as nat)),
{
    let len = out.len();
    let rem = len % align;
    let p: usize = if rem == 0 {
        0
    } else {
        align - rem
    };
    proof {
        assert(p == pad_for(len as nat, align as nat)) by (nonlinear_arith)
            requires
                align > 0,
                rem == len as int % align as int,
                p == if rem == 0 { 0int } else { align - rem },
        ;
    }
    let mut j: usize = 0;
    while j < p
        invariant
            j <= p,
            out@ =~= old(out)@ + zero_bytes(j as nat),
        decreases p - j,
    {
        out.push(0u8);
        proof {
            assert(out@ =~= old(out)@ + zero_bytes((j + 1) as nat));
        }
        j = j + 1;
    }
}

/// The std140 alignment of a field value.
fn value_align(v: &Std140Value) -> (r: usize)
    ensures
        r == kind_align(kind_of(*v)),
{
    match *v {
        Std140Value::Float(_) => 4,
        _ => 16,
    }
}

/// Appends the payload bytes of one field.
fn push_value(out: &mut Vec<u8>, v: &Std140Value)
    ensures
        final(out)@ == old(out)@ + value_bytes(*v),
{
    let ghost prev = out@;
    match *v {
        Std140Value::Float(b) => {
            push_u32_le(out, b);
        },
        Std140Value::Vec3(xyz) => {
            push_u32_le(out, xyz.x);
            push_u32_le(out, xyz.y);
            push_u32_le(out, xyz.z);
            proof {
                assert(out@ =~= prev + value_bytes(*v));
            }
        },
        Std140Value::Vec4(v4) => {
            push_vec4(out, v4);
        },
        Std140Value::Mat4(c0, c1, c2, c3) => {
            push_vec4(out, c0);
            push_vec4(out, c1);
            push_vec4(out, c2);
            push_vec4(out, c3);
            proof {
                assert(out@ =~= prev + value_bytes(*v));
            }
        },
    }
}

/// Encodes a block value per the std140 layout rules: each field padded to
/// its alignment, the whole struct padded to a 16-byte boundary.
pub fn std140_encode_bytes(values: &Vec<Std140Value>) -> (r: Vec<u8>)
    requires
        std140_size(values@) + 16 <= usize::MAX,
    ensures
        r@ == std140_encode(values@),
{
    let mut out: Vec<u8> = Vec::new();
    let mut i: usize = 0;
    proof {
        assert(values@.skip(0) =~= values@);
    }
    while i < values.len()
        invariant
            i <= values@.len(),
            std140_encode(values@) == out@ + encode_from(values@.skip(i as int), out@.len()),
            size_from(values@.skip(i as int), out@.len()) + 16 <= usize::MAX,
        decreases values@.len() - i,
    {
        let ghost rest = values@.skip(i as int);
        let ghost prev = out@;
        let v = &values[i];
        proof {
            assert(rest[0] == values@[i as int]);
            assert(rest.drop_first() =~= values@.skip(i as int + 1));
            lemma_value_bytes_len(*v);
            lemma_size_from_lower(rest, prev.len());
        }
        let a = value_align(v);
        proof {
            assert(a <= 16);
        }
        push_padding(&mut out, a);
        push_value(&mut out, v);
        proof {
            let pad = pad_for(prev.len(), kind_align(kind_of(*v)));
            assert(out@ =~= prev + (zero_bytes(pad) + value_bytes(*v)));
            assert(prev + (zero_bytes(pad) + value_bytes(*v)) + encode_from(
                values@.skip(i as int + 1),
                out@.len(),
            ) =~= prev + (zero_bytes(pad) + value_bytes(*v) + encode_from(
                values@.skip(i as int + 1),
                out@.len(),
            )));
        }
        i = i + 1;
    }
    proof {
        assert(values@.skip(i as int) =~= Seq::<Std140Value>::empty());
        lemma_size_from_lower(values@.skip(i as int), out@.len());
    }
    push_padding(&mut out, 16);
    proof {
        assert(out@ =~= std140_encode(values@));
    }
    out
}

/// The final offset is at least the starting offset.
proof fn lemma_size_from_lower(values: Seq<Std140Value>, off: nat)
    ensures
        size_from(values, off) >= off,
    decreases values,
{
    if values.len() > 0 {
        let pad = pad_for(off, kind_align(kind_of(values[0])));
        lemma_size_from_lower(values.drop_first(), off + pad + kind_size(kind_of(values[0])));
    }
}

/// Conversion of a host math type into its std140 block field.
pub trait GlmStd140Ext<T> {
    /// The field this value stores as.
    spec fn spec_to_std140(&self) -> T;

    /// The field this value stores as.
    fn to_std140(&self) -> (r: T)
        ensures
            r == self.spec_to_std140(),
    ;
}

impl GlmStd140Ext<Std140Value> for Vec3Bits {
    open spec fn spec_to_std140(&self) -> Std140Value {
        Std140Value::Vec3(*self)
    }

    fn to_std140(&self) -> (r: Std140Value)
        ensures
            r == Std140Value::Vec3(*self),
    {
        Std140Value::Vec3(*self)
    }
}

impl GlmStd140Ext<Std140Value> for Vec4Bits {
    open spec fn spec_to_std140(&self) -> Std140Value {
        Std140Value::Vec4(*self)
    }

    fn to_std140(&self) -> (r: Std140Value)
        ensures
            r == Std140Value::Vec4(*self),
    {
        Std140Value::Vec4(*self)
    }
}

impl GlmStd140Ext<Std140Value> for Mat4Cols {
    open spec fn spec_to_std140(&self) -> Std140Value {
        Std140Value::Mat4(self.c0, self.c1, self.c2, self.c3)
    }

    fn to_std140(&self) -> (r: Std140Value)
        ensures
            r == Std140Value::Mat4(self.c0, self.c1, self.c2, self.c3),
    {
        Std140Value::Mat4(self.c0, self.c1, self.c2, self.c3)
    }
}

/// A GPU buffer holding one std140-encoded struct, bound at a fixed buffer
/// binding index chosen once at construction and shared across shaders.
pub struct UniformBlock {
    binding: u32,
    ubo: u32,
    size: u32,
    contents: Vec<u8>,
}

impl UniformBlock {
    /// The fixed binding index this block was constructed with.
    pub closed spec fn spec_binding(&self) -> u32 {
        self.binding
    }

    /// The buffer object handle.
    pub closed spec fn spec_ubo(&self) -> u32 {
        self.ubo
    }

    /// The byte size the buffer was allocated with.
    pub closed spec fn spec_size(&self) -> u32 {
        self.size
    }

    /// What the GPU buffer holds after the emitted commands have run.
    pub closed spec fn spec_contents(&self) -> Seq<u8> {
        self.contents@
    }

    /// Allocates a buffer of exactly `size` bytes and permanently associates
    /// it with the binding index: the emitted commands size the buffer and
    /// attach it to the indexed binding point.
    pub fn new(binding: u32, ubo: u32, size: u32, out: &mut Vec<GlCommand>) -> (r: UniformBlock)
        ensures
            r.spec_binding() == binding,
            r.spec_ubo() == ubo,
            r.spec_size() == size,
            r.spec_contents() == Seq::<u8>::empty(),
            final(out).deep_view() == old(out).deep_view() + seq![
                CmdV::BindBuffer { target: BufferTarget::Uniform, buffer: ubo },
                CmdV::AllocateBuffer {
                    target: BufferTarget::Uniform,
                    size,
                    usage: BufferUsage::Static,
                },
                CmdV::UnbindBuffer { target: BufferTarget::Uniform },
                CmdV::BindBufferBase { target: BufferTarget::Uniform, index: binding, buffer: ubo },
            ],
    {
        let ghost prev = out.deep_view();
        push_cmd(out, GlCommand::BindBuffer { target: BufferTarget::Uniform, buffer: ubo });
        push_cmd(
            out,
            GlCommand::AllocateBuffer {
                target: BufferTarget::Uniform,
                size,
                usage: BufferUsage::Static,
            },
        );
        push_cmd(out, GlCommand::UnbindBuffer { target: BufferTarget::Uniform });
        push_cmd(
            out,
            GlCommand::BindBufferBase {
                target: BufferTarget::Uniform,
                index: binding,
                buffer: ubo,
            },
        );
        proof {
            assert(out.deep_view() =~= prev + seq![
                CmdV::BindBuffer { target: BufferTarget::Uniform, buffer: ubo },
                CmdV::AllocateBuffer {
                    target: BufferTarget::Uniform,
                    size,
                    usage: BufferUsage::Static,
                },
                CmdV::UnbindBuffer { target: BufferTarget::Uniform },
                CmdV::BindBufferBase { target: BufferTarget::Uniform, index: binding, buffer: ubo },
            ]);
        }
        UniformBlock { binding, ubo, size, contents: Vec::new() }
    }

    /// Overwrites the whole buffer with the std140 encoding of `values`: the
    /// buffer afterwards holds exactly that encoding.
    pub fn upload(&mut self, values: &Vec<Std140Value>, out: &mut Vec<GlCommand>)
        requires
            std140_size(values@) == old(self).spec_size(),
            old(self).spec_size() + 16 <= usize::MAX,
        ensures
            final(self).spec_binding() == old(self).spec_binding(),
            final(self).spec_ubo() == old(self).spec_ubo(),
            final(self).spec_size() == old(self).spec_size(),
            final(self).spec_contents() == std140_encode(values@),
            final(out).deep_view() == old(out).deep_view() + seq![
                CmdV::BindBuffer { target: BufferTarget::Uniform, buffer: old(self).spec_ubo() },
                CmdV::BufferSubData {
                    target: BufferTarget::Uniform,
                    offset: 0,
                    bytes: std140_encode(values@),
                },
                CmdV::UnbindBuffer { target: BufferTarget::Uniform },
            ],
    {
        let ghost prev = out.deep_view();
        let bytes = std140_encode_bytes(values);
        let shadow = std140_encode_bytes(values);
        push_cmd(out, GlCommand::BindBuffer { target: BufferTarget::Uniform, buffer: self.ubo });
        push_cmd(
            out,
            GlCommand::BufferSubData { target: BufferTarget::Uniform, offset: 0, bytes },
        );
        push_cmd(out, GlCommand::UnbindBuffer { target: BufferTarget::Uniform });
        self.contents = shadow;
        proof {
            assert(out.deep_view() =~= prev + seq![
                CmdV::BindBuffer { target: BufferTarget::Uniform, buffer: self.ubo },
                CmdV::BufferSubData {
                    target: BufferTarget::Uniform,
                    offset: 0,
                    bytes: std140_encode(values@),
                },
                CmdV::UnbindBuffer { target: BufferTarget::Uniform },
            ]);
        }
    }

    /// The bytes the GPU buffer holds: a raw read-back of the block.
    pub fn read_back(&self) -> (r: &Vec<u8>)
        ensures
            r@ == self.spec_contents(),
    {
        &self.contents
    }

    /// The block as a bindable uniform value: binding it through an active
    /// shader associates the program's block location of that name with this
    /// block's binding index.
    pub fn uniform_value(&self) -> (r: UniformValue)
        ensures
            r == UniformValue::BlockRef(self.spec_binding()),
    {
        UniformValue::BlockRef(self.binding)
    }
}

} // verus!
