use riv::screen::{
    fullscreen_change, upload_chunks, FullscreenChange, FullscreenKind, LoadStep, Surface,
    TextureCache, UploadChunk, CHUNK_PIXELS,
};

fn surface(width: u32, height: u32) -> Surface {
    Surface { width, height, pitch: width * 4, pixels: vec![0u8; (width * height * 4) as usize] }
}

fn check_cover(width: u32, height: u32, pitch: u32, len: usize) -> Vec<UploadChunk> {
    let plan = upload_chunks(width, height, pitch, len);
    let mut seen = vec![0u32; height as usize];
    for c in &plan {
        for row in c.y..c.y + c.rows {
            seen[row as usize] += 1;
        }
        assert!(c.start <= c.end && c.end <= len);
    }
    assert!(seen.iter().all(|&n| n == 1));
    plan
}

#[test]
fn small_surface_is_one_chunk() {
    let plan = check_cover(100, 50, 400, 20000);
    assert_eq!(plan, vec![UploadChunk { y: 0, rows: 50, start: 0, end: 20000 }]);
}

#[test]
fn uneven_height_last_chunk_takes_the_rest() {
    // 2048 x 1537 pixels: 3 chunks of 512 rows, the last one 513 rows.
    let width = 2048u32;
    let height = 1537u32;
    let pitch = width * 4;
    let len = (pitch * height) as usize;
    assert_eq!((width as u64 * height as u64) / CHUNK_PIXELS, 3);
    let plan = check_cover(width, height, pitch, len);
    assert_eq!(plan.len(), 3);
    assert_eq!(plan[0], UploadChunk { y: 0, rows: 512, start: 0, end: 512 * 8192 });
    assert_eq!(plan[1], UploadChunk { y: 512, rows: 512, start: 512 * 8192, end: 1024 * 8192 });
    assert_eq!(plan[2], UploadChunk { y: 1024, rows: 513, start: 1024 * 8192, end: len });
}

#[test]
fn short_buffer_is_clamped() {
    let plan = check_cover(2048, 1024, 8192, 100);
    assert_eq!(plan.len(), 2);
    assert_eq!(plan[0], UploadChunk { y: 0, rows: 512, start: 0, end: 100 });
    assert_eq!(plan[1], UploadChunk { y: 512, rows: 512, start: 100, end: 100 });
}

#[test]
fn very_wide_surface_gets_leading_empty_chunks() {
    let plan = check_cover(2_097_152, 1, 8_388_608, 8_388_608);
    assert_eq!(
        plan,
        vec![
            UploadChunk { y: 0, rows: 0, start: 0, end: 0 },
            UploadChunk { y: 0, rows: 1, start: 0, end: 8_388_608 },
        ]
    );
    let plan = check_cover(4_000_000, 2, 16_000_000, 32_000_000);
    assert_eq!(plan.len(), 7);
    assert_eq!(plan[6], UploadChunk { y: 0, rows: 2, start: 0, end: 32_000_000 });
}

#[test]
fn empty_surface_has_one_empty_chunk() {
    let plan = check_cover(0, 0, 0, 0);
    assert_eq!(plan, vec![UploadChunk { y: 0, rows: 0, start: 0, end: 0 }]);
}

fn plan_of(step: Result<LoadStep, String>) -> Vec<UploadChunk> {
    match step {
        Ok(LoadStep::Upload(p)) => p,
        other => panic!("expected an upload, got {:?}", other),
    }
}

#[test]
fn cache_decodes_each_index_once() {
    let mut cache: TextureCache<u32> = TextureCache::new();
    let mut decodes = 0;
    for _ in 0..2 {
        let plan = match cache.load_step(3, None) {
            Ok(LoadStep::Decode) => {
                decodes += 1;
                plan_of(cache.load_step(3, Some(Ok(surface(4, 2)))))
            }
            other => plan_of(other),
        };
        assert_eq!(plan, vec![UploadChunk { y: 0, rows: 2, start: 0, end: 32 }]);
        cache.displayed(3, 77);
    }
    assert_eq!(decodes, 1);
    assert_eq!(cache.last_index, Some(3));
    assert_eq!(cache.last_texture, Some(77));
    assert_eq!(cache.surface(3).unwrap().height, 2);
    assert!(cache.surface(4).is_none());
}

#[test]
fn cached_surface_is_kept_over_a_new_decode() {
    let mut cache: TextureCache<u32> = TextureCache::new();
    plan_of(cache.load_step(0, Some(Ok(surface(4, 2)))));
    let plan = plan_of(cache.load_step(0, Some(Ok(surface(8, 8)))));
    assert_eq!(plan, vec![UploadChunk { y: 0, rows: 2, start: 0, end: 32 }]);
    assert_eq!(cache.surface(0).unwrap().width, 4);
}

#[test]
fn failed_decode_leaves_last_index() {
    let mut cache: TextureCache<u32> = TextureCache::new();
    plan_of(cache.load_step(1, Some(Ok(surface(1, 1)))));
    cache.displayed(1, 5);
    assert!(matches!(cache.load_step(2, None), Ok(LoadStep::Decode)));
    let r = cache.load_step(2, Some(Err("missing.png: no such file".to_string())));
    assert!(matches!(r, Err(ref e) if e == "missing.png: no such file"));
    assert_eq!(cache.last_index, Some(1));
    assert!(matches!(cache.load_step(2, None), Ok(LoadStep::Decode)));
    assert!(cache.surface(2).is_none());
    assert!(cache.surface(1).is_some());
}

#[test]
fn load_keeps_texture_or_error() {
    let mut cache: TextureCache<u32> = TextureCache::new();
    assert_eq!(cache.load(Ok(9)), Ok(()));
    assert_eq!(cache.last_texture, Some(9));
    assert_eq!(cache.load(Err("bad".to_string())), Err("bad".to_string()));
    assert_eq!(cache.last_texture, Some(9));
}

#[test]
fn fullscreen_changes() {
    assert_eq!(fullscreen_change(true, FullscreenKind::Off), None);
    assert_eq!(fullscreen_change(false, FullscreenKind::True), None);
    assert_eq!(
        fullscreen_change(true, FullscreenKind::True),
        Some(FullscreenChange { target: FullscreenKind::Off, bordered: true })
    );
    assert_eq!(
        fullscreen_change(false, FullscreenKind::Desktop),
        Some(FullscreenChange { target: FullscreenKind::True, bordered: false })
    );
}
