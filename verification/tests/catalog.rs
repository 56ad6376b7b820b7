use jadevid::media_project::MediaProject;
use jadevid::media_ref::{MediaInfo, MediaStream};
use jadevid::probe::{
    classify_streams, media_info_from_streams, skipped_stream_indices, ProbeError, RawStreamInfo,
    StreamMedium,
};
use jadevid::rational::JadeRational;

fn raw(index: usize, medium: StreamMedium, duration: u64) -> RawStreamInfo {
    RawStreamInfo { index, medium, duration, time_base: JadeRational::new(1, 90000) }
}

fn mixed_container() -> Vec<RawStreamInfo> {
    vec![
        raw(0, StreamMedium::Video, 1500),
        raw(1, StreamMedium::Other, 0),
        raw(2, StreamMedium::Audio, 48000),
        raw(3, StreamMedium::Other, 7),
        raw(4, StreamMedium::Video, 1500),
    ]
}

#[test]
fn classification_keeps_media_streams_in_order() {
    let streams = classify_streams(&mixed_container());
    assert_eq!(streams.len(), 3);
    match &streams[0] {
        MediaStream::Video(info, _) => {
            assert_eq!(info.index, 0);
            assert_eq!(info.length.time_base_length, 1500);
            assert_eq!(info.length.time_base, JadeRational::new(1, 90000));
        }
        other => panic!("expected a video stream, got {other:?}"),
    }
    match &streams[1] {
        MediaStream::Audio(info, _) => {
            assert_eq!(info.index, 2);
            assert_eq!(info.length.time_base_length, 48000);
        }
        other => panic!("expected an audio stream, got {other:?}"),
    }
    match &streams[2] {
        MediaStream::Video(info, _) => assert_eq!(info.index, 4),
        other => panic!("expected a video stream, got {other:?}"),
    }
}

#[test]
fn classification_reports_skipped_streams() {
    assert_eq!(skipped_stream_indices(&mixed_container()), vec![1, 3]);
    assert_eq!(skipped_stream_indices(&Vec::new()), Vec::<usize>::new());
}

#[test]
fn classification_of_empty_container_is_empty() {
    assert!(classify_streams(&Vec::new()).is_empty());
}

#[test]
fn media_info_records_path_and_streams() {
    let m = media_info_from_streams(String::from("clip.mkv"), &mixed_container());
    assert_eq!(m.path, "clip.mkv");
    assert_eq!(m.streams.len(), 3);
    assert_eq!(m.streams[2].info().index, 4);
}

fn entry(path: &str) -> MediaInfo {
    MediaInfo { path: String::from(path), streams: Vec::new() }
}

fn fresh_project() -> MediaProject {
    MediaProject::new(JadeRational::new(30, 1), 300)
}

#[test]
fn import_yields_distinct_keys_and_remove_keeps_the_other() {
    let mut p = fresh_project();
    let k1 = p.import(entry("a.mkv"));
    let k2 = p.import(entry("b.mkv"));
    assert_ne!(k1, k2);

    assert!(p.remove(k1));
    assert!(p.get(k1).is_none());
    let kept = p.get(k2).expect("second entry must stay retrievable");
    assert_eq!(kept.path, "b.mkv");
    assert!(!p.remove(k1));
}

#[test]
fn stale_key_never_aliases_a_later_entry() {
    let mut p = fresh_project();
    let k1 = p.import(entry("a.mkv"));
    assert!(p.remove(k1));
    let k2 = p.import(entry("b.mkv"));
    assert_ne!(k1, k2);
    assert!(p.get(k1).is_none());
    assert_eq!(p.get(k2).expect("live entry").path, "b.mkv");
}

#[test]
fn failed_probe_leaves_the_project_untouched() {
    let mut p = fresh_project();
    let k = p.import(entry("a.mkv"));

    let r = p.import_probed(Err(ProbeError::OpenFailed));
    assert_eq!(r, Err(ProbeError::OpenFailed));
    assert_eq!(p.get(k).expect("existing entry must survive").path, "a.mkv");
    assert_eq!(p.fps, JadeRational::new(30, 1));
    assert_eq!(p.frame_count, 300);

    let r2 = p.import_probed(Ok(entry("c.mkv")));
    let k2 = r2.expect("successful probe imports");
    assert_eq!(p.get(k2).expect("imported entry").path, "c.mkv");
    assert_ne!(k, k2);
}

#[test]
fn project_keeps_rate_and_length_across_imports() {
    let mut p = fresh_project();
    assert_eq!(p.fps, JadeRational::new(30, 1));
    assert_eq!(p.frame_count, 300);
    let _ = p.import(entry("a.mkv"));
    assert_eq!(p.fps, JadeRational::new(30, 1));
    assert_eq!(p.frame_count, 300);
}
