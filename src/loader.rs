use vstd::prelude::*;
use vstd::endian::{endianness, Endian};
use vstd::string::StrSliceExecFns;
use vstd::string::StringExecFns;

verus! {

/// Bytes per vertex: a position of three 32-bit floats, then texture
/// coordinates of two.
pub const VERTEX_STRIDE: u64 = 20;

/// Bytes per index: indices are 32-bit.
pub const INDEX_SIZE: u64 = 4;

/// The directory that texture files are looked up in, by base name.
pub const TEXTURE_DIR: &'static str = "./textures/";

/// Why a model could not be loaded.
#[derive(Debug, PartialEq, Eq)]
pub enum LoadError {
    /// The mesh file could not be read or parsed.
    MeshFile { path: String },
    /// The material library that the mesh file names could not be read or parsed.
    MaterialLibrary { path: String },
    /// A material names no diffuse texture.
    MissingTexture { material: String },
    /// A texture file could not be read.
    TextureFile { path: String },
    /// A texture file's bytes are not an image in a format that can be decoded.
    TextureDecode { path: String },
    /// A decoded texture has no pixels, is too wide to upload, or its pixel data
    /// does not match its size.
    TextureSize { path: String },
    /// The position data is not a whole number of three-component positions.
    Positions,
    /// There are fewer than two texture coordinates per vertex.
    TexCoords,
    /// The vertex or index data is too large for a GPU buffer.
    TooLarge,
    /// An index names a vertex that does not exist.
    IndexOutOfRange { position: usize },
    /// A sub-mesh exists but the model has no material to draw it with.
    NoMaterial,
}

/// The four bytes of `w`, least significant first when `little` holds.
pub open spec fn word_bytes(w: u32, little: bool) -> Seq<u8> {
    let b0 = (w % 0x100) as u8;
    let b1 = ((w / 0x100) % 0x100) as u8;
    let b2 = ((w / 0x1_0000) % 0x100) as u8;
    let b3 = (w / 0x100_0000) as u8;
    if little {
        seq![b0, b1, b2, b3]
    } else {
        seq![b3, b2, b1, b0]
    }
}

/// The bytes of each word of `s`, in order.
pub open spec fn words_bytes(s: Seq<u32>, little: bool) -> Seq<u8>
    decreases s.len(),
{
    if s.len() == 0 {
        Seq::empty()
    } else {
        words_bytes(s.drop_last(), little) + word_bytes(s.last(), little)
    }
}

/// Whether the target stores integers least significant byte first.
pub open spec fn native_little() -> bool {
    endianness() is Little
}

pub proof fn lemma_words_bytes_len(s: Seq<u32>, little: bool)
    ensures
        words_bytes(s, little).len() == 4 * s.len(),
    decreases s.len(),
{
    if s.len() > 0 {
        lemma_words_bytes_len(s.drop_last(), little);
    }
}

/// Relies on bytemuck::cast_slice: it reinterprets the 32-bit indices as their
/// bytes in memory, that is in the target's byte order.
#[verifier::external_body]
fn index_bytes(indices: &Vec<u32>) -> (r: Vec<u8>)
    ensures
        r@ == words_bytes(indices@, native_little()),
{
    bytemuck::cast_slice::<u32, u8>(indices.as_slice()).to_vec()
}

/// The material a sub-mesh is drawn with: the one it names when that exists,
/// material zero when it names none or one out of range, and nothing when the
/// model has no materials at all.
pub open spec fn resolved_material(id: Option<usize>, count: nat) -> Option<usize> {
    if count == 0 {
        None
    } else if id is Some && id->0 < count {
        id
    } else {
        Some(0usize)
    }
}

pub fn resolve_material(id: Option<usize>, count: usize) -> (r: Option<usize>)
    ensures
        r == resolved_material(id, count as nat),
        r matches Some(m) ==> m < count,
{
    if count == 0 {
        None
    } else {
        match id {
            Some(i) if i < count => Some(i),
            _ => Some(0),
        }
    }
}

/// What is uploaded for one sub-mesh, and how it is drawn.
pub struct MeshLayout {
    pub vertex_count: usize,
    pub index_count: u32,
    pub material: usize,
    /// Byte length of the interleaved vertex buffer.
    pub vertex_bytes: u64,
    /// The contents of the index buffer.
    pub index_data: Vec<u8>,
}

/// Every index names one of the first `n` vertices.
pub open spec fn indices_in_range(indices: Seq<u32>, n: nat) -> bool {
    forall|k: int| 0 <= k < indices.len() ==> (#[trigger] indices[k]) < n
}

/// All checks on one sub-mesh pass: whole positions, two texture coordinates per
/// vertex, sizes that fit GPU buffers, indices in range, and a material to draw with.
pub open spec fn layout_ok(positions_len: usize, texcoords_len: usize, indices: Seq<u32>, material_count: usize) -> bool {
    let n = positions_len / 3;
    &&& positions_len % 3 == 0
    &&& texcoords_len >= 2 * n
    &&& indices.len() <= u32::MAX
    &&& n * VERTEX_STRIDE <= u64::MAX
    &&& indices_in_range(indices, n as nat)
    &&& material_count > 0
}

/// `l` is the layout of a sub-mesh that passed the checks: `n` vertices of
/// `VERTEX_STRIDE` bytes, the indices as bytes in the target's order, and the
/// resolved material.
pub open spec fn layout_of(
    l: MeshLayout,
    positions_len: usize,
    indices: Seq<u32>,
    material_id: Option<usize>,
    material_count: usize,
) -> bool {
    let n = positions_len / 3;
    &&& l.vertex_count == n
    &&& l.index_count == indices.len()
    &&& l.vertex_bytes == n * VERTEX_STRIDE
    &&& l.index_data@ == words_bytes(indices, native_little())
    &&& l.index_data@.len() == indices.len() * INDEX_SIZE
    &&& resolved_material(material_id, material_count as nat) == Some(l.material)
    &&& l.material < material_count
}

/// `e` is the error for a sub-mesh: the first check that fails, in the order
/// positions, texture coordinates, size, indices (the first one out of range),
/// material.
pub open spec fn layout_error(
    e: LoadError,
    positions_len: usize,
    texcoords_len: usize,
    indices: Seq<u32>,
    material_count: usize,
) -> bool {
    let n = positions_len / 3;
    match e {
        LoadError::Positions => positions_len % 3 != 0,
        LoadError::TexCoords => positions_len % 3 == 0 && texcoords_len < 2 * n,
        LoadError::TooLarge => {
            &&& positions_len % 3 == 0
            &&& texcoords_len >= 2 * n
            &&& (indices.len() > u32::MAX || n * VERTEX_STRIDE > u64::MAX)
        },
        LoadError::IndexOutOfRange { position } => {
            &&& positions_len % 3 == 0
            &&& texcoords_len >= 2 * n
            &&& indices.len() <= u32::MAX
            &&& n * VERTEX_STRIDE <= u64::MAX
            &&& position < indices.len()
            &&& indices[position as int] >= n
            &&& indices_in_range(indices.take(position as int), n as nat)
        },
        LoadError::NoMaterial => {
            &&& positions_len % 3 == 0
            &&& texcoords_len >= 2 * n
            &&& indices.len() <= u32::MAX
            &&& n * VERTEX_STRIDE <= u64::MAX
            &&& indices_in_range(indices, n as nat)
            &&& material_count == 0
        },
        _ => false,
    }
}

/// Checks one sub-mesh as parsed from a mesh file and lays out its buffers.
/// `positions_len` and `texcoords_len` count float components (three per position,
/// two per texture coordinate); `material_id` is the material the file assigns, if
/// any, out of `material_count`.
pub fn mesh_layout(
    positions_len: usize,
    texcoords_len: usize,
    indices: &Vec<u32>,
    material_id: Option<usize>,
    material_count: usize,
) -> (r: Result<MeshLayout, LoadError>)
    ensures
        r is Ok <==> layout_ok(positions_len, texcoords_len, indices@, material_count),
        r matches Ok(l) ==> layout_of(l, positions_len, indices@, material_id, material_count),
        r matches Err(e) ==> layout_error(e, positions_len, texcoords_len, indices@, material_count),
{
    if positions_len % 3 != 0 {
        return Err(LoadError::Positions);
    }
    let n = positions_len / 3;
    if texcoords_len / 2 < n {
        assert(texcoords_len < 2 * n);
        return Err(LoadError::TexCoords);
    }
    if indices.len() > u32::MAX as usize || n as u64 > u64::MAX / VERTEX_STRIDE {
        return Err(LoadError::TooLarge);
    }
    let mut k: usize = 0;
    while k < indices.len()
        invariant
            k <= indices.len(),
            n == positions_len / 3,
            positions_len % 3 == 0,
            texcoords_len >= 2 * n,
            indices.len() <= u32::MAX,
            n * VERTEX_STRIDE <= u64::MAX,
            indices_in_range(indices@.take(k as int), n as nat),
        decreases indices.len() - k,
    {
        if indices[k] as usize >= n {
            return Err(LoadError::IndexOutOfRange { position: k });
        }
        assert(indices@.take(k as int + 1) =~= indices@.take(k as int).push(indices[k as int]));
        k += 1;
    }
    assert(indices@.take(k as int) =~= indices@);
    let material = match resolve_material(material_id, material_count) {
        Some(m) => m,
        None => {
            return Err(LoadError::NoMaterial);
        },
    };
    let index_data = index_bytes(indices);
    proof {
        lemma_words_bytes_len(indices@, native_little());
    }
    Ok(
        MeshLayout {
            vertex_count: n,
            index_count: indices.len() as u32,
            material,
            vertex_bytes: n as u64 * VERTEX_STRIDE,
            index_data,
        },
    )
}

/// One sub-mesh as the mesh file gives it, reduced to what the checks read:
/// float component counts, the indices and the assigned material.
pub struct MeshSource {
    pub positions_len: usize,
    pub texcoords_len: usize,
    pub indices: Vec<u32>,
    pub material_id: Option<usize>,
}

pub open spec fn source_ok(m: MeshSource, material_count: usize) -> bool {
    layout_ok(m.positions_len, m.texcoords_len, m.indices@, material_count)
}

pub open spec fn source_layout(l: MeshLayout, m: MeshSource, material_count: usize) -> bool {
    layout_of(l, m.positions_len, m.indices@, m.material_id, material_count)
}

pub open spec fn source_error(e: LoadError, m: MeshSource, material_count: usize) -> bool {
    layout_error(e, m.positions_len, m.texcoords_len, m.indices@, material_count)
}

/// Checks and lays out every sub-mesh of a model, all or nothing: either every
/// sub-mesh passes and each gets its layout, in file order, or the error of the
/// first one that fails is returned. A model with sub-meshes but no materials
/// is refused.
pub fn model_layout(meshes: &Vec<MeshSource>, material_count: usize) -> (r: Result<Vec<MeshLayout>, LoadError>)
    ensures
        r is Ok <==> forall|k: int| 0 <= k < meshes@.len() ==> source_ok(#[trigger] meshes@[k], material_count),
        r matches Ok(ls) ==> {
            &&& ls@.len() == meshes@.len()
            &&& forall|k: int| 0 <= k < meshes@.len() ==> source_layout(#[trigger] ls@[k], meshes@[k], material_count)
        },
        r matches Err(e) ==> exists|k: int|
            0 <= k < meshes@.len() && #[trigger] source_error(e, meshes@[k], material_count) && forall|j: int|
                0 <= j < k ==> source_ok(#[trigger] meshes@[j], material_count),
{
    let mut out: Vec<MeshLayout> = Vec::new();
    let mut k: usize = 0;
    while k < meshes.len()
        invariant
            k <= meshes@.len(),
            out@.len() == k,
            forall|j: int| 0 <= j < k ==> source_ok(#[trigger] meshes@[j], material_count),
            forall|j: int| 0 <= j < k ==> source_layout(#[trigger] out@[j], meshes@[j], material_count),
        decreases meshes@.len() - k,
    {
        let m = &meshes[k];
        match mesh_layout(m.positions_len, m.texcoords_len, &m.indices, m.material_id, material_count) {
            Ok(l) => {
                out.push(l);
            },
            Err(e) => {
                assert(source_error(e, meshes@[k as int], material_count));
                return Err(e);
            },
        }
        k += 1;
    }
    Ok(out)
}

/// The layout of a sub-mesh depends on its source data alone: loading the same
/// mesh again, wherever the copy is placed, gives the same index contents, index
/// count, material and vertex buffer size.
pub proof fn lemma_same_source_same_layout(a: MeshLayout, b: MeshLayout, m: MeshSource, material_count: usize)
    requires
        source_layout(a, m, material_count),
        source_layout(b, m, material_count),
    ensures
        a.index_data@ == b.index_data@,
        a.index_count == b.index_count,
        a.material == b.material,
        a.vertex_count == b.vertex_count,
        a.vertex_bytes == b.vertex_bytes,
{
}

/// The part of a path after its last `/` (the whole path when it has none).
pub open spec fn basename(path: Seq<char>) -> Seq<char>
    decreases path.len(),
{
    if path.len() == 0 {
        path
    } else if path.last() == '/' {
        Seq::empty()
    } else {
        basename(path.drop_last()).push(path.last())
    }
}

/// Where the texture of a material is read from: its diffuse texture's base name
/// in the texture directory. A material that names no diffuse texture cannot be
/// loaded.
pub fn texture_path(material: &str, diffuse_texture: Option<&str>) -> (r: Result<String, LoadError>)
    ensures
        match diffuse_texture {
            Some(t) => r matches Ok(p) && p@ == TEXTURE_DIR@ + basename(t@),
            None => r matches Err(LoadError::MissingTexture { material: m }) && m@ == material@,
        },
{
    match diffuse_texture {
        None => Err(LoadError::MissingTexture { material: String::from_str(material) }),
        Some(t) => {
            let n = t.unicode_len();
            let mut start: usize = 0;
            let mut i: usize = 0;
            while i < n
                invariant
                    n == t@.len(),
                    start <= i <= n,
                    basename(t@.take(i as int)) == t@.subrange(start as int, i as int),
                decreases n - i,
            {
                let c = t.get_char(i);
                assert(t@.take(i + 1).drop_last() =~= t@.take(i as int));
                if c == '/' {
                    start = i + 1;
                    assert(t@.subrange(start as int, i + 1) =~= Seq::<char>::empty());
                } else {
                    assert(t@.subrange(start as int, i + 1) =~= t@.subrange(start as int, i as int).push(c));
                }
                i += 1;
            }
            assert(t@.take(n as int) =~= t@);
            let name = t.substring_char(start, n);
            let mut path = String::from_str(TEXTURE_DIR);
            path.append(name);
            Ok(path)
        },
    }
}

/// What `image` decodes the bytes of an image file to, as 8-bit RGBA: width,
/// height and pixel data; nothing when the bytes do not start with the signature
/// of a format it knows, or do not decode in that format.
pub uninterp spec fn decoded_rgba8(bytes: Seq<u8>) -> Option<(u32, u32, Seq<u8>)>;

/// Relies on image::guess_format, which picks a built-in format from the leading
/// signature bytes, and image::load_from_memory_with_format, which decodes with
/// that built-in decoder (neither consults the process-wide hook tables), with
/// DynamicImage::to_rgba8 converting the result to 8-bit RGBA.
#[verifier::external_body]
fn decode_rgba8(bytes: &[u8]) -> (r: Option<(u32, u32, Vec<u8>)>)
    ensures
        match r {
            Some((w, h, p)) => decoded_rgba8(bytes@) == Some((w, h, p@)),
            None => decoded_rgba8(bytes@) is None,
        },
{
    let format = match image::guess_format(bytes) {
        Ok(f) => f,
        Err(_) => return None,
    };
    match image::load_from_memory_with_format(bytes, format) {
        Ok(img) => {
            let rgba = img.to_rgba8();
            Some((rgba.width(), rgba.height(), rgba.into_raw()))
        },
        Err(_) => None,
    }
}

/// An RGBA image, four bytes per pixel, laid out for upload: rows of
/// `bytes_per_row` bytes, `height` rows.
pub struct TextureImage {
    pub width: u32,
    pub height: u32,
    pub bytes_per_row: u32,
    pub pixels: Vec<u8>,
}

/// Whether a `width` by `height` image with `len` bytes of RGBA data can be uploaded.
pub open spec fn texture_fits(width: u32, height: u32, len: nat) -> bool {
    &&& width >= 1
    &&& height >= 1
    &&& 4 * width <= u32::MAX
    &&& len == 4 * width * height
}

/// Lays out decoded RGBA pixels of the texture file at `path` for upload.
pub fn texture_image(path: &str, width: u32, height: u32, pixels: Vec<u8>) -> (r: Result<TextureImage, LoadError>)
    ensures
        r is Ok <==> texture_fits(width, height, pixels@.len()),
        r matches Ok(t) ==> {
            &&& t.width == width
            &&& t.height == height
            &&& t.bytes_per_row == 4 * width
            &&& t.pixels@ == pixels@
        },
        r matches Err(e) ==> e matches LoadError::TextureSize { path: p } && p@ == path@,
{
    if width == 0 || height == 0 || width > u32::MAX / 4 {
        return Err(LoadError::TextureSize { path: String::from_str(path) });
    }
    let row: u128 = 4 * (width as u128);
    assert(row * (height as u128) <= 0x4_0000_0000u128 * 0x1_0000_0000u128) by (nonlinear_arith)
        requires
            row <= 0x4_0000_0000u128,
            height <= 0xffff_ffffu32,
    ;
    let expected: u128 = row * (height as u128);
    if pixels.len() as u128 != expected {
        return Err(LoadError::TextureSize { path: String::from_str(path) });
    }
    Ok(TextureImage { width, height, bytes_per_row: 4 * width, pixels })
}

/// Decodes the bytes read from the texture file at `path` into an uploadable
/// RGBA image.
pub fn decode_texture(path: &str, bytes: &[u8]) -> (r: Result<TextureImage, LoadError>)
    ensures
        match decoded_rgba8(bytes@) {
            None => r matches Err(LoadError::TextureDecode { path: p }) && p@ == path@,
            Some((w, h, px)) => {
                &&& (r is Ok <==> texture_fits(w, h, px.len()))
                &&& r matches Ok(t) ==> t.width == w && t.height == h && t.bytes_per_row == 4 * w
                    && t.pixels@ == px
                &&& r matches Err(e) ==> e matches LoadError::TextureSize { path: p } && p@ == path@
            },
        },
{
    match decode_rgba8(bytes) {
        None => Err(LoadError::TextureDecode { path: String::from_str(path) }),
        Some((w, h, p)) => texture_image(path, w, h, p),
    }
}

} // verus!
