use comic_download::batch::{Batch, Slot};
use comic_download::cache_key::{cache_key_from_path, url_to_cache_key};
use comic_download::control::{ControlState, PauseStep};
use comic_download::media::{format_label, inspect_image, judge_download, meta_from, outcome_from, ImageMeta, PageOutcome};
use comic_download::pages::{build_chapter_pages, distinct_chapters, PageTask};
use comic_download::paths::{chapter_dir, comic_dir, decimal_string, get_image_path, join_paths};
use comic_download::schedule::{
    batch_has_work, begin_tick, next_chapter_step, next_drain_step, worker_take, workers_for_batch, ChapterStep,
    DrainStep, TickStep,
};
use std::io::Cursor;

fn png_bytes(w: u32, h: u32) -> Vec<u8> {
    let img = image::DynamicImage::ImageRgb8(image::RgbImage::new(w, h));
    let mut buf = Cursor::new(Vec::new());
    img.write_to(&mut buf, image::ImageFormat::Png).unwrap();
    buf.into_inner()
}

fn task(chapter: &str, index: u32) -> PageTask {
    PageTask {
        comic_path_word: "comic".to_string(),
        chapter_uuid: chapter.to_string(),
        image_index: index,
        url: format!("https://img.example.com/{}/{}.png", chapter, index),
        cache_key: format!("/{}/{}.png", chapter, index),
    }
}

#[test]
fn control_defaults() {
    let s = ControlState::new();
    assert!(!s.restart_pending());
    assert!(!s.is_paused());
    assert_eq!(s.worker_count(), 3);
}

#[test]
fn consume_restart_is_one_shot() {
    let mut s = ControlState::new();
    s.request_restart();
    assert!(s.restart_pending());
    assert!(s.consume_restart());
    assert!(!s.consume_restart());
    assert!(!s.restart_pending());
}

#[test]
fn pause_blocks_then_releases() {
    let mut s = ControlState::new();
    s.set_paused(true);
    assert_eq!(s.pause_step(), PauseStep::Wait { secs: 3 });
    assert_eq!(begin_tick(&mut s), TickStep::Wait { secs: 3 });
    s.set_paused(false);
    assert_eq!(s.pause_step(), PauseStep::Proceed);
    assert_eq!(begin_tick(&mut s), TickStep::SelectComic);
}

#[test]
fn tick_clears_stale_restart() {
    let mut s = ControlState::new();
    s.request_restart();
    assert_eq!(begin_tick(&mut s), TickStep::SelectComic);
    assert!(!s.restart_pending());
}

#[test]
fn worker_count_changes() {
    let mut s = ControlState::new();
    s.set_worker_count(1);
    assert_eq!(workers_for_batch(&s), 1);
    s.set_worker_count(8);
    assert_eq!(workers_for_batch(&s), 8);
}

#[test]
fn decimal_texts() {
    assert_eq!(decimal_string(0), "0");
    assert_eq!(decimal_string(7), "7");
    assert_eq!(decimal_string(10), "10");
    assert_eq!(decimal_string(4294967295), "4294967295");
}

#[test]
fn directories_and_image_path() {
    assert_eq!(join_paths("a", "b"), "a/b");
    assert_eq!(comic_dir("/dl", "one-piece"), "/dl/one-piece");
    assert_eq!(chapter_dir("/dl", "one-piece", "u-1"), "/dl/one-piece/u-1");
    assert_eq!(get_image_path("/dl", "one-piece", "u-1", 12), "/dl/one-piece/u-1/12");
}

#[test]
fn image_path_is_deterministic() {
    let a = get_image_path("/dl", "c", "ch", 3);
    let b = get_image_path("/dl", "c", "ch", 3);
    assert_eq!(a, b);
    assert_ne!(a, get_image_path("/dl", "c", "ch", 4));
}

#[test]
fn cache_key_strips_query() {
    assert_eq!(url_to_cache_key("https://hi77-overseas.mangafuna.xyz/a/b/c.jpg.c800x.jpg?t=1"), "/a/b/c.jpg.c800x.jpg");
    assert_eq!(url_to_cache_key("https://example.com"), "/");
}

#[test]
fn cache_key_of_unparsable_url_is_empty() {
    assert_eq!(url_to_cache_key("not a url"), "");
    assert_eq!(cache_key_from_path(None), "");
    assert_eq!(cache_key_from_path(Some("/p".to_string())), "/p");
}

#[test]
fn format_labels() {
    assert_eq!(format_label(&vec!["jpg".to_string(), "jpeg".to_string()]), "jpg");
    assert_eq!(format_label(&vec![]), "");
}

#[test]
fn metadata_needs_format_and_size() {
    let m = meta_from(Some(vec!["png".to_string()]), Some((4, 5))).unwrap();
    assert_eq!(m, ImageMeta { width: 4, height: 5, format: "png".to_string() });
    assert_eq!(meta_from(None, Some((4, 5))), None);
    assert_eq!(meta_from(Some(vec!["png".to_string()]), None), None);
    assert_eq!(outcome_from(None), PageOutcome::Failed);
}

#[test]
fn png_bytes_are_inspected() {
    let m = inspect_image(&png_bytes(3, 2)).unwrap();
    assert_eq!(m.width, 3);
    assert_eq!(m.height, 2);
    assert_eq!(m.format, "png");
}

#[test]
fn undecodable_bytes_fail() {
    assert_eq!(inspect_image(&vec![1, 2, 3, 4]), None);
    assert_eq!(judge_download(&Some(vec![0u8; 16])), PageOutcome::Failed);
    assert_eq!(judge_download(&None), PageOutcome::Failed);
    let mut truncated = png_bytes(3, 2);
    truncated.truncate(20);
    assert_eq!(judge_download(&Some(truncated)), PageOutcome::Failed);
}

#[test]
fn chapter_pages_are_indexed_in_order() {
    let urls = vec![
        "https://img.example.com/x/0.jpg?k=1".to_string(),
        "https://img.example.com/x/1.jpg".to_string(),
        "https://img.example.com/x/2.jpg?k=3".to_string(),
    ];
    let pages = build_chapter_pages("group", "uuid-1", &urls);
    assert_eq!(pages.len(), 3);
    for (i, p) in pages.iter().enumerate() {
        assert_eq!(p.comic_path_word, "group");
        assert_eq!(p.chapter_uuid, "uuid-1");
        assert_eq!(p.image_index, i as u32);
        assert_eq!(p.url, urls[i]);
        assert_eq!(p.cache_key, format!("/x/{}.jpg", i));
    }
    assert!(build_chapter_pages("group", "uuid-1", &vec![]).is_empty());
}

#[test]
fn distinct_chapters_of_batch() {
    let pages = vec![task("b", 0), task("a", 0), task("b", 1), task("a", 1), task("c", 0)];
    assert_eq!(distinct_chapters(&pages), vec!["b".to_string(), "a".to_string(), "c".to_string()]);
    assert!(distinct_chapters(&vec![]).is_empty());
}

#[test]
fn queue_is_last_in_first_out() {
    let mut b = Batch::new(vec![task("a", 0), task("a", 1), task("a", 2)]);
    assert_eq!(b.pop(), Some(2));
    assert_eq!(b.slot(2), &Slot::Taken);
    assert_eq!(b.pop(), Some(1));
    assert_eq!(b.pop(), Some(0));
    assert_eq!(b.pop(), None);
    assert!(b.is_drained());
}

#[test]
fn full_drain_ends_every_page() {
    let pages: Vec<PageTask> = (0..7).map(|i| task("a", i)).collect();
    let mut b = Batch::new(pages);
    let mut n = 0;
    while let Some(i) = worker_take(false, &mut b) {
        let outcome = if i % 3 == 0 {
            PageOutcome::Failed
        } else {
            PageOutcome::Success(ImageMeta { width: 1, height: 1, format: "png".to_string() })
        };
        b.record(i, outcome);
        n += 1;
    }
    assert_eq!(n, 7);
    for i in 0..7 {
        assert!(matches!(b.slot(i), Slot::Succeeded(_) | Slot::Failed));
    }
    assert_eq!(b.succeeded_count(), 4);
    assert_eq!(b.failed_count(), 3);
    assert_eq!(b.succeeded_count() + b.failed_count(), b.len());
}

#[test]
fn one_undecodable_page_fails_alone() {
    let pages: Vec<PageTask> = (0..5).map(|i| task("a", i)).collect();
    let bodies: Vec<Vec<u8>> = (0..5).map(|i| if i == 2 { vec![9u8; 32] } else { png_bytes(i + 1, 2) }).collect();
    let mut b = Batch::new(pages);
    while let Some(i) = worker_take(false, &mut b) {
        b.record(i, judge_download(&Some(bodies[i].clone())));
    }
    assert_eq!(b.succeeded_count(), 4);
    assert_eq!(b.failed_count(), 1);
    assert_eq!(b.slot(2), &Slot::Failed);
    assert_eq!(
        b.slot(4),
        &Slot::Succeeded(ImageMeta { width: 5, height: 2, format: "png".to_string() })
    );
}

#[test]
fn restart_stops_worker() {
    let mut b = Batch::new(vec![task("a", 0), task("a", 1)]);
    assert_eq!(worker_take(true, &mut b), None);
    assert_eq!(b.slot(0), &Slot::Queued);
    assert_eq!(b.slot(1), &Slot::Queued);
    assert!(!b.is_drained());
}

#[test]
fn restart_abandons_remaining_chapters() {
    let mut control = ControlState::new();
    let chapters = ["c1", "c2", "c3"];
    let mut fetched: Vec<&str> = vec![];
    let mut done = 0;
    let end = loop {
        match next_chapter_step(control.restart_pending(), done, chapters.len()) {
            ChapterStep::Fetch(i) => {
                fetched.push(chapters[i]);
                done += 1;
                if done == 1 {
                    control.request_restart();
                }
            }
            other => break other,
        }
    };
    assert_eq!(end, ChapterStep::Abandon);
    assert_eq!(fetched, vec!["c1"]);
}

#[test]
fn chapter_walk_finishes_without_restart() {
    assert_eq!(next_chapter_step(false, 0, 2), ChapterStep::Fetch(0));
    assert_eq!(next_chapter_step(false, 1, 2), ChapterStep::Fetch(1));
    assert_eq!(next_chapter_step(false, 2, 2), ChapterStep::Finished);
    assert_eq!(next_chapter_step(true, 2, 2), ChapterStep::Finished);
    assert_eq!(next_chapter_step(true, 0, 2), ChapterStep::Abandon);
}

#[test]
fn drain_asks_for_at_most_a_hundred() {
    assert_eq!(next_drain_step(false), DrainStep::FetchBatch { limit: 100 });
    assert_eq!(next_drain_step(true), DrainStep::Stop);
    assert!(batch_has_work(1));
    assert!(!batch_has_work(0));
}
