//! Texture cache: decoded pixel surfaces kept by navigation index, and the plan
//! by which a surface is uploaded to a texture in chunks of bounded size.

use std::collections::HashMap;
use vstd::prelude::*;

verus! {

/// Most pixels that one upload call transfers, so that no single call stalls.
pub const CHUNK_PIXELS: u64 = 1048576;

/// A decoded image: rows of pixels, `pitch` bytes apart, in `pixels`.
#[derive(Clone, Debug)]
pub struct Surface {
    /// Width in pixels
    pub width: u32,
    /// Height in pixels (rows)
    pub height: u32,
    /// Bytes from the start of one row to the start of the next
    pub pitch: u32,
    /// The pixel bytes, row after row
    pub pixels: Vec<u8>,
}

/// One upload call: rows `y .. y + rows` of the texture, taken from the bytes
/// `start .. end` of the surface.
#[derive(Clone, Copy, Debug, PartialEq, Eq, Structural)]
pub struct UploadChunk {
    /// First row
    pub y: u32,
    /// Number of rows
    pub rows: u32,
    /// First byte of the slice
    pub start: usize,
    /// End of the slice (exclusive)
    pub end: usize,
}

/// How many upload calls a `width` by `height` surface takes: one per
/// `CHUNK_PIXELS` pixels, at least one. A surface with fewer rows than that
/// gets leading chunks of no rows.
pub open spec fn chunk_count(width: u32, height: u32) -> int {
    let c = (width * height) / (CHUNK_PIXELS as int);
    if c <= 1 {
        1
    } else {
        c
    }
}

/// Rows in each chunk but the last, which takes what is left; may be 0.
pub open spec fn chunk_rows(width: u32, height: u32) -> int {
    height as int / chunk_count(width, height)
}

/// The smaller of two integers.
pub open spec fn min_int(a: int, b: int) -> int {
    if a <= b {
        a
    } else {
        b
    }
}

/// Chunk `k` of the plan.
pub open spec fn chunk_at(width: u32, height: u32, pitch: u32, len: usize, k: int) -> UploadChunk {
    let lines = chunk_rows(width, height);
    let y = k * lines;
    let rows = if k + 1 < chunk_count(width, height) {
        lines
    } else {
        height - y
    };
    UploadChunk {
        y: y as u32,
        rows: rows as u32,
        start: min_int(len as int, y * pitch) as usize,
        end: min_int(len as int, (y + rows) * pitch) as usize,
    }
}

/// The upload plan of a surface of `len` bytes: `chunk_count` chunks of
/// `chunk_rows` rows each, the last one running to the final row, every byte
/// range clamped to the end of the buffer.
pub open spec fn chunk_plan(width: u32, height: u32, pitch: u32, len: usize) -> Seq<UploadChunk> {
    Seq::new(chunk_count(width, height) as nat, |k: int| chunk_at(width, height, pitch, len, k))
}

proof fn lemma_chunk_bounds(width: u32, height: u32, k: int)
    requires
        0 <= k < chunk_count(width, height),
    ensures
        1 <= chunk_count(width, height),
        chunk_count(width, height) <= u64::MAX,
        0 <= chunk_rows(width, height),
        0 <= k * chunk_rows(width, height),
        k * chunk_rows(width, height) + chunk_rows(width, height) <= height,
{
    let c = chunk_count(width, height);
    let l = chunk_rows(width, height);
    assert(width as int * height as int <= u64::MAX) by (nonlinear_arith)
        requires
            width <= u32::MAX,
            height <= u32::MAX,
    ;
    assert(c * l <= height) by (nonlinear_arith)
        requires
            c >= 1,
            l == height as int / c,
            height >= 0,
    ;
    assert(k * l + l <= c * l && 0 <= k * l) by (nonlinear_arith)
        requires
            0 <= k < c,
            l >= 0,
    ;
}

/// Plans the upload of a `width` by `height` surface whose rows are `pitch`
/// bytes apart, held in a buffer of `len` bytes.
pub fn upload_chunks(width: u32, height: u32, pitch: u32, len: usize) -> (r: Vec<UploadChunk>)
    ensures
        r@ == chunk_plan(width, height, pitch, len),
{
    assert(width as int * height as int <= u64::MAX) by (nonlinear_arith)
        requires
            width <= u32::MAX,
            height <= u32::MAX,
    ;
    let total = width as u64 * height as u64;
    let c0 = total / CHUNK_PIXELS;
    let count: u64 = if c0 <= 1 {
        1
    } else {
        c0
    };
    assert(count == chunk_count(width, height));
    let lines: u64 = height as u64 / count;
    let mut plan: Vec<UploadChunk> = Vec::new();
    let mut k: u64 = 0;
    while k < count
        invariant
            count == chunk_count(width, height),
            lines == chunk_rows(width, height),
            k <= count,
            plan@.len() == k,
            forall|j: int| 0 <= j < k ==> plan@[j] == chunk_at(width, height, pitch, len, j),
        decreases count - k,
    {
        proof {
            lemma_chunk_bounds(width, height, k as int);
        }
        let y: u32 = (k * lines) as u32;
        let rows: u32 = if k + 1 < count {
            lines as u32
        } else {
            height - y
        };
        let y_end: u64 = y as u64 + rows as u64;
        assert(y as int * pitch <= u64::MAX && y_end * pitch <= u64::MAX) by (nonlinear_arith)
            requires
                y <= height,
                y_end <= height,
                height <= u32::MAX,
                pitch <= u32::MAX,
        ;
        let from = y as u64 * pitch as u64;
        let to = y_end * pitch as u64;
        let start: usize = if from <= len as u64 {
            from as usize
        } else {
            len
        };
        let end: usize = if to <= len as u64 {
            to as usize
        } else {
            len
        };
        plan.push(UploadChunk { y, rows, start, end });
        k = k + 1;
    }
    assert(plan@ =~= chunk_plan(width, height, pitch, len));
    plan
}

/// Whether chunk `c` uploads row `row`.
pub open spec fn covers_row(c: UploadChunk, row: int) -> bool {
    c.y <= row < c.y + c.rows
}

/// The chunks of an upload plan take every row of the surface exactly once and
/// none past the last row; their byte ranges never reach past the end of the
/// buffer, and in a buffer of at least `height * pitch` bytes each chunk takes
/// exactly the bytes of its rows.
pub proof fn lemma_chunks_cover_rows(width: u32, height: u32, pitch: u32, len: usize, row: int)
    requires
        0 <= row < height,
    ensures
        exists|k: int|
            0 <= k < chunk_plan(width, height, pitch, len).len() && covers_row(
                #[trigger] chunk_plan(width, height, pitch, len)[k],
                row,
            ),
        forall|k1: int, k2: int|
            0 <= k1 < chunk_plan(width, height, pitch, len).len() && 0 <= k2 < chunk_plan(
                width,
                height,
                pitch,
                len,
            ).len() && covers_row(#[trigger] chunk_plan(width, height, pitch, len)[k1], row)
                && covers_row(#[trigger] chunk_plan(width, height, pitch, len)[k2], row) ==> k1
                == k2,
        forall|k: int|
            0 <= k < chunk_plan(width, height, pitch, len).len() ==> {
                let c = #[trigger] chunk_plan(width, height, pitch, len)[k];
                &&& c.y + c.rows <= height
                &&& c.start <= c.end <= len
                &&& len >= height * pitch ==> c.start == c.y * pitch && c.end == (c.y + c.rows)
                    * pitch
            },
{
    let plan = chunk_plan(width, height, pitch, len);
    let c = chunk_count(width, height);
    let l = chunk_rows(width, height);
    lemma_chunk_bounds(width, height, 0);
    let k = if l == 0 {
        c - 1
    } else if row / l < c - 1 {
        row / l
    } else {
        c - 1
    };
    lemma_chunk_bounds(width, height, k);
    if l > 0 {
        let q = row / l;
        assert(q * l <= row < q * l + l) by (nonlinear_arith)
            requires
                l >= 1,
                q == row / l,
                row >= 0,
        ;
        assert(k * l <= q * l) by (nonlinear_arith)
            requires
                0 <= k <= q,
                l >= 1,
        ;
    }
    assert(covers_row(plan[k], row));
    assert forall|k1: int, k2: int|
        0 <= k1 < plan.len() && 0 <= k2 < plan.len() && covers_row(#[trigger] plan[k1], row)
            && covers_row(#[trigger] plan[k2], row) implies k1 == k2 by {
        lemma_chunk_bounds(width, height, k1);
        lemma_chunk_bounds(width, height, k2);
        if k1 < k2 {
            assert(k1 * l + l <= k2 * l) by (nonlinear_arith)
                requires
                    k1 + 1 <= k2,
                    l >= 0,
            ;
        } else if k2 < k1 {
            assert(k2 * l + l <= k1 * l) by (nonlinear_arith)
                requires
                    k2 + 1 <= k1,
                    l >= 0,
            ;
        }
    }
    assert forall|k: int| 0 <= k < plan.len() implies {
        let ch = #[trigger] plan[k];
        &&& ch.y + ch.rows <= height
        &&& ch.start <= ch.end <= len
        &&& len >= height * pitch ==> ch.start == ch.y * pitch && ch.end == (ch.y + ch.rows)
            * pitch
    } by {
        lemma_chunk_bounds(width, height, k);
        let y = k * l;
        let e = if k + 1 < c {
            y + l
        } else {
            height as int
        };
        assert(y * pitch <= e * pitch && e * pitch <= height * pitch) by (nonlinear_arith)
            requires
                0 <= y <= e <= height,
                pitch >= 0,
        ;
    }
}

/// Decoded surfaces by navigation index, and the texture shown last.
///
/// Entries are added when an index is first displayed and are never evicted.
pub struct TextureCache<T> {
    /// The texture rendered last
    pub last_texture: Option<T>,
    /// Decoded surfaces by navigation index
    pub cache: HashMap<usize, Surface>,
    /// Index of the texture rendered last
    pub last_index: Option<usize>,
    /// If true, the last texture is stale and must be discarded
    pub dirty: bool,
}

/// What a load of an index does next.
#[derive(Clone, Debug)]
pub enum LoadStep {
    /// The file of the index must be decoded, and the outcome handed back
    Decode,
    /// The surface is cached: upload it to a new texture by these chunks
    Upload(Vec<UploadChunk>),
}

/// Whether a load of `index` decodes its file, given the entries `m`.
pub open spec fn decode_needed(m: Map<usize, Surface>, index: usize) -> bool {
    !m.contains_key(index)
}

/// The entries after a load step of `index`, given what the file decoded to if
/// that was asked for: a new surface is added, an error adds nothing, and a
/// cached surface is kept.
pub open spec fn entries_after_step(
    m: Map<usize, Surface>,
    index: usize,
    decoded: Option<Result<Surface, String>>,
) -> Map<usize, Surface> {
    match decoded {
        Some(Ok(s)) => if m.contains_key(index) {
            m
        } else {
            m.insert(index, s)
        },
        _ => m,
    }
}

/// The entries after a whole load of `index`: a first step, then, where it
/// asks for a decode, a second step with the outcome `decoded`.
pub open spec fn entries_after_load(
    m: Map<usize, Surface>,
    index: usize,
    decoded: Result<Surface, String>,
) -> Map<usize, Surface> {
    let first = entries_after_step(m, index, None);
    if decode_needed(first, index) {
        entries_after_step(first, index, Some(decoded))
    } else {
        first
    }
}

/// The upload plan of a surface.
pub open spec fn surface_plan(s: Surface) -> Seq<UploadChunk> {
    chunk_plan(s.width, s.height, s.pitch, s.pixels@.len() as usize)
}

impl<T> TextureCache<T> {
    /// An empty cache with nothing on display
    pub fn new() -> (r: Self)
        ensures
            r.cache@ == Map::<usize, Surface>::empty(),
            r.last_texture is None,
            r.last_index is None,
            !r.dirty,
    {
        Self { last_texture: None, cache: HashMap::new(), last_index: None, dirty: false }
    }

    /// Takes the outcome of loading a texture straight from its file: a texture
    /// becomes the last texture, an error is handed back and changes nothing.
    pub fn load(&mut self, loaded: Result<T, String>) -> (r: Result<(), String>)
        ensures
            r is Ok <==> loaded is Ok,
            loaded is Err ==> r == Err::<(), String>(loaded->Err_0),
            final(self).last_texture == (match loaded {
                Ok(t) => Some(t),
                Err(_) => old(self).last_texture,
            }),
            final(self).cache@ == old(self).cache@,
            final(self).last_index == old(self).last_index,
            final(self).dirty == old(self).dirty,
    {
        match loaded {
            Ok(t) => {
                self.last_texture = Some(t);
                Ok(())
            },
            Err(e) => Err(e),
        }
    }

    /// One step of loading `index`, with what its file decoded to when the
    /// previous step asked for that. An error of the decode is handed back and
    /// changes nothing. Otherwise a decoded surface is cached, unless one is
    /// cached already, and the step asks for a decode exactly when no surface
    /// of `index` is cached; else it gives the upload plan of the cached one.
    pub fn load_step(&mut self, index: usize, decoded: Option<Result<Surface, String>>) -> (r:
        Result<LoadStep, String>)
        ensures
            final(self).cache@ == entries_after_step(old(self).cache@, index, decoded),
            final(self).last_texture == old(self).last_texture,
            final(self).last_index == old(self).last_index,
            final(self).dirty == old(self).dirty,
            match decoded {
                Some(Err(e)) => r == Err::<LoadStep, String>(e),
                _ => match r {
                    Ok(LoadStep::Decode) => decode_needed(final(self).cache@, index),
                    Ok(LoadStep::Upload(p)) => !decode_needed(final(self).cache@, index) && p@
                        == surface_plan(final(self).cache@[index]),
                    Err(_) => false,
                },
            },
    {
        match decoded {
            Some(Err(e)) => {
                return Err(e);
            },
            Some(Ok(s)) => {
                if !self.cache.contains_key(&index) {
                    self.cache.insert(index, s);
                }
            },
            None => {},
        }
        match self.cache.get(&index) {
            Some(s) => Ok(LoadStep::Upload(upload_chunks(s.width, s.height, s.pitch, s.pixels.len()))),
            None => Ok(LoadStep::Decode),
        }
    }

    /// The cached surface of `index`, if any.
    pub fn surface(&self, index: usize) -> (r: Option<&Surface>)
        ensures
            match r {
                Some(s) => self.cache@.contains_key(index) && *s == self.cache@[index],
                None => !self.cache@.contains_key(index),
            },
    {
        self.cache.get(&index)
    }

    /// Puts texture `texture` of `index` on display; the cache keeps its entries.
    pub fn displayed(&mut self, index: usize, texture: T)
        ensures
            final(self).last_texture == Some(texture),
            final(self).last_index == Some(index),
            final(self).cache@ == old(self).cache@,
            final(self).dirty == old(self).dirty,
    {
        self.last_texture = Some(texture);
        self.last_index = Some(index);
    }
}

/// A load of an index that succeeds leaves a surface of it cached, so the next
/// load of it decodes nothing and changes no entry: loading an index twice
/// decodes its file at most once. A failed decode adds nothing, and no step
/// drops an entry.
pub proof fn lemma_decoded_at_most_once(
    m: Map<usize, Surface>,
    index: usize,
    first: Result<Surface, String>,
    second: Result<Surface, String>,
    step: Option<Result<Surface, String>>,
    e: String,
)
    requires
        !decode_needed(m, index) || first is Ok,
    ensures
        !decode_needed(entries_after_load(m, index, first), index),
        entries_after_load(entries_after_load(m, index, first), index, second)
            == entries_after_load(m, index, first),
        entries_after_step(m, index, Some(Err(e))) == m,
        forall|k: usize|
            m.contains_key(k) ==> #[trigger] entries_after_step(m, index, step).contains_key(k),
{
}

/// Fullscreen setting of a window.
#[derive(Clone, Copy, Debug, PartialEq, Eq, Structural)]
pub enum FullscreenKind {
    /// Windowed
    Off,
    /// Fullscreen at a changed video mode
    True,
    /// Fullscreen at the desktop's resolution
    Desktop,
}

/// The change that brings a window to a fullscreen setting.
#[derive(Clone, Copy, Debug, PartialEq, Eq, Structural)]
pub struct FullscreenChange {
    /// Setting to switch to
    pub target: FullscreenKind,
    /// Whether the window has borders afterwards
    pub bordered: bool,
}

/// The setting that the window takes for the fullscreen flag of the state.
pub open spec fn fullscreen_target(fullscreen: bool) -> FullscreenKind {
    if fullscreen {
        FullscreenKind::Off
    } else {
        FullscreenKind::True
    }
}

/// Decides how to update a window whose setting is `current` for the
/// fullscreen flag `fullscreen`: nothing when it already has the target
/// setting, else the target, with borders only when windowed.
pub fn fullscreen_change(fullscreen: bool, current: FullscreenKind) -> (r: Option<FullscreenChange>)
    ensures
        r == (if current == fullscreen_target(fullscreen) {
            None
        } else {
            Some(
                FullscreenChange {
                    target: fullscreen_target(fullscreen),
                    bordered: fullscreen_target(fullscreen) == FullscreenKind::Off,
                },
            )
        }),
{
    let target = if fullscreen {
        FullscreenKind::Off
    } else {
        FullscreenKind::True
    };
    if current == target {
        return None;
    }
    match target {
        FullscreenKind::Off => Some(FullscreenChange { target, bordered: true }),
        _ => Some(FullscreenChange { target, bordered: false }),
    }
}

} // verus!
