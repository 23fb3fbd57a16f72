use caption_meta::{
    build_record, caption_from_text, CacheEntry, ExtractionCause, ExtractionError, ImageFailure,
    Scheduler, SubsetInfo,
};

#[test]
fn caption_is_trimmed() {
    assert_eq!(caption_from_text("  a cat\n"), "a cat");
}

#[test]
fn caption_keeps_inner_white_space() {
    assert_eq!(caption_from_text("\t a  black\tcat \r\n"), "a  black\tcat");
}

#[test]
fn caption_trims_unicode_white_space() {
    assert_eq!(caption_from_text("\u{3000}dog\u{a0}\u{2029}"), "dog");
}

#[test]
fn caption_of_blank_text_is_empty() {
    assert_eq!(caption_from_text(" \n\t "), "");
    assert_eq!(caption_from_text(""), "");
}

fn ok_record(path: &str, caption: &str, w: u32, h: u32) -> CacheEntry {
    CacheEntry {
        key: path.to_string(),
        info: SubsetInfo { caption: caption.to_string(), resolution: (w, h) },
    }
}

#[test]
fn record_holds_resolution_and_trimmed_caption() {
    let r = build_record(
        "d/a.png".to_string(),
        Ok((64, 48)),
        Ok("  a cat\n".to_string()),
        Ok("/abs/d/a.png".to_string()),
    )
    .unwrap();
    assert_eq!(r.key, "/abs/d/a.png");
    assert_eq!(r.info, SubsetInfo { caption: "a cat".to_string(), resolution: (64, 48) });
}

#[test]
fn record_error_when_image_cannot_open() {
    let e = build_record(
        "d/a.png".to_string(),
        Err(ImageFailure::Open("no such file".to_string())),
        Err("no such file".to_string()),
        Err("no such file".to_string()),
    )
    .unwrap_err();
    assert_eq!(e.path, "d/a.png");
    assert!(matches!(e.cause, ExtractionCause::ImageOpen(ref m) if m == "no such file"));
}

#[test]
fn record_error_when_caption_unreadable() {
    let e = build_record(
        "d/a.png".to_string(),
        Err(ImageFailure::Header("bad header".to_string())),
        Err("not valid text".to_string()),
        Ok("/abs/d/a.png".to_string()),
    )
    .unwrap_err();
    assert_eq!(e.path, "d/a.png");
    assert!(matches!(e.cause, ExtractionCause::CaptionRead(ref m) if m == "not valid text"));
}

#[test]
fn record_error_when_header_unreadable() {
    let e = build_record(
        "d/a.png".to_string(),
        Err(ImageFailure::Header("bad header".to_string())),
        Ok("cat".to_string()),
        Ok("/abs/d/a.png".to_string()),
    )
    .unwrap_err();
    assert!(matches!(e.cause, ExtractionCause::ImageHeader(ref m) if m == "bad header"));
}

#[test]
fn record_error_when_path_unresolvable() {
    let e = build_record(
        "d/a.png".to_string(),
        Ok((1, 1)),
        Ok("cat".to_string()),
        Err("gone".to_string()),
    )
    .unwrap_err();
    assert!(matches!(e.cause, ExtractionCause::Canonicalize(ref m) if m == "gone"));
}

#[test]
fn error_message_names_path_and_cause() {
    let e = ExtractionError {
        path: "d/a.png".to_string(),
        cause: ExtractionCause::CaptionRead("gone".to_string()),
    };
    assert_eq!(e.message(), "failed to extract metadata of d/a.png: cannot read caption: gone");
}

fn paths(n: usize) -> Vec<String> {
    (0..n).map(|i| format!("/d/{}.png", i)).collect()
}

#[test]
fn scheduler_never_exceeds_limit() {
    let mut s = Scheduler::new(paths(5), 2);
    assert_eq!(s.start_next(), Some("/d/0.png".to_string()));
    assert_eq!(s.start_next(), Some("/d/1.png".to_string()));
    assert_eq!(s.start_next(), None);
    assert_eq!(s.in_flight_count(), 2);
    s.finish(Ok(ok_record("/d/1.png", "b", 1, 2)));
    assert_eq!(s.start_next(), Some("/d/2.png".to_string()));
    assert_eq!(s.start_next(), None);
}

#[test]
fn scheduler_collects_every_record() {
    let mut s = Scheduler::new(paths(3), 8);
    let mut started = Vec::new();
    while let Some(p) = s.start_next() {
        started.push(p);
    }
    assert_eq!(started.len(), 3);
    for p in started.iter().rev() {
        s.finish(Ok(ok_record(p, "c", 3, 4)));
    }
    assert!(s.is_done());
    assert_eq!(s.completed_count(), 3);
    let out = s.into_outcome().unwrap();
    let keys: Vec<&str> = out.iter().map(|e| e.key.as_str()).collect();
    assert_eq!(keys, vec!["/d/2.png", "/d/1.png", "/d/0.png"]);
}

#[test]
fn scheduler_with_no_candidates_is_done() {
    let mut s = Scheduler::new(Vec::new(), 4);
    assert!(s.is_done());
    assert_eq!(s.start_next(), None);
    assert!(s.into_outcome().unwrap().is_empty());
}

#[test]
fn scheduler_aborts_on_first_failure() {
    // five candidates; the caption of the third vanished after filtering
    let mut s = Scheduler::new(paths(5), 2);
    let a = s.start_next().unwrap();
    let b = s.start_next().unwrap();
    s.finish(Ok(ok_record(&a, "a", 1, 1)));
    let c = s.start_next().unwrap();
    s.finish(Ok(ok_record(&b, "b", 1, 1)));
    let d = s.start_next().unwrap();
    let failed = build_record(c.clone(), Ok((1, 1)), Err("not found".to_string()), Ok(c.clone()));
    s.finish(failed);
    assert!(s.is_done());
    assert_eq!(s.start_next(), None);
    s.finish(Ok(ok_record(&d, "d", 1, 1)));
    assert_eq!(s.completed_count(), 4);
    let e = s.into_outcome().unwrap_err();
    assert_eq!(e.path, "/d/2.png");
    assert!(matches!(e.cause, ExtractionCause::CaptionRead(_)));
}

#[test]
fn subset_info_equality_is_structural() {
    let a = SubsetInfo { caption: "x".to_string(), resolution: (2, 3) };
    assert_eq!(a, SubsetInfo { caption: "x".to_string(), resolution: (2, 3) });
    assert_ne!(a, SubsetInfo { caption: "x".to_string(), resolution: (3, 2) });
    assert_ne!(a, SubsetInfo { caption: "y".to_string(), resolution: (2, 3) });
}

fn run_in_order(order: &[usize]) -> Vec<(String, String, (u32, u32))> {
    let mut s = Scheduler::new(paths(4), 4);
    let mut started = Vec::new();
    while let Some(p) = s.start_next() {
        started.push(p);
    }
    for &i in order {
        let p = &started[i];
        s.finish(Ok(ok_record(p, &format!("caption {}", i), 10 + i as u32, 20)));
    }
    let mut out: Vec<(String, String, (u32, u32))> = s
        .into_outcome()
        .unwrap()
        .into_iter()
        .map(|e| (e.key, e.info.caption, e.info.resolution))
        .collect();
    out.sort();
    out
}

#[test]
fn completion_order_does_not_change_records() {
    let a = run_in_order(&[0, 1, 2, 3]);
    let b = run_in_order(&[3, 1, 0, 2]);
    assert_eq!(a, b);
    assert_eq!(a.len(), 4);
    assert_eq!(a[2], ("/d/2.png".to_string(), "caption 2".to_string(), (12, 20)));
}
