use asmr_player::catalog::{metadata_updated_message, tag_filter_placeholders};
use asmr_player::scan::{
    choose_cover, directory_code, extracted_cover_name, has_audio_file, is_audio_extension,
    is_extracted_cover, is_tagged_audio_extension, scrape_code, ImageCandidate,
};

fn image(stem: &str, ext: &str, size: Option<u64>) -> ImageCandidate {
    ImageCandidate { stem: stem.to_string(), extension: ext.to_string(), size }
}

#[test]
fn audio_extensions_ignore_case() {
    assert!(is_audio_extension("MP3"));
    assert!(is_audio_extension("flac"));
    assert!(is_audio_extension("M4a"));
    assert!(!is_audio_extension("opus"));
    assert!(!is_audio_extension("jpg"));
    assert!(!is_audio_extension(""));
    assert!(is_tagged_audio_extension("OPUS"));
    assert!(!is_tagged_audio_extension("wav"));
}

#[test]
fn directory_with_a_track_is_a_work() {
    let exts = vec!["txt".to_string(), "WAV".to_string()];
    assert!(has_audio_file(&exts));
    assert!(!has_audio_file(&vec!["png".to_string(), "".to_string()]));
    assert!(!has_audio_file(&Vec::new()));
}

#[test]
fn code_is_found_in_directory_name() {
    assert_eq!(directory_code("[Circle] RJ01234567 Title"), Some("RJ01234567".to_string()));
    assert_eq!(directory_code("BJ123456"), Some("BJ123456".to_string()));
    assert_eq!(directory_code("RJ12345"), None);
    assert_eq!(directory_code("rj123456"), None);
}

#[test]
fn scrape_code_prefers_the_stored_one() {
    assert_eq!(scrape_code(&Some("RJ111111".to_string()), "/lib/RJ222222"), Some("RJ111111".to_string()));
    assert_eq!(scrape_code(&Some(String::new()), "/lib/rj222222 x"), Some("RJ222222".to_string()));
    assert_eq!(scrape_code(&None, "/lib/bj7654321"), Some("BJ7654321".to_string()));
    assert_eq!(scrape_code(&None, "/lib/plain"), None);
}

#[test]
fn preferred_cover_name_wins() {
    let cs = vec![
        image("big", "png", Some(9000)),
        image("Folder", "JPG", Some(10)),
        image("cover", "jpg", Some(20)),
    ];
    assert_eq!(choose_cover(&cs), Some(1));
}

#[test]
fn largest_image_is_the_fallback() {
    let cs = vec![
        image("a", "png", Some(100)),
        image("notes", "txt", Some(99999)),
        image("b", "webp", Some(300)),
        image("c", "bmp", Some(300)),
        image("d", "jpeg", None),
    ];
    assert_eq!(choose_cover(&cs), Some(2));
    assert_eq!(choose_cover(&vec![image("cover", "txt", Some(5))]), None);
    assert_eq!(choose_cover(&Vec::new()), None);
}

#[test]
fn extracted_cover_is_recognised() {
    assert!(is_extracted_cover("cover_extracted.jpg"));
    assert!(!is_extracted_cover("cover.jpg"));
    assert!(!is_extracted_cover("cover_extract"));
}

#[test]
fn extracted_cover_type_follows_mime() {
    assert_eq!(extracted_cover_name(&Some("Png".to_string())), "cover_extracted.png");
    assert_eq!(extracted_cover_name(&Some("Jpeg".to_string())), "cover_extracted.jpg");
    assert_eq!(extracted_cover_name(&None), "cover_extracted.jpg");
}

#[test]
fn placeholders_are_comma_separated() {
    assert_eq!(tag_filter_placeholders(0), "");
    assert_eq!(tag_filter_placeholders(1), "?");
    assert_eq!(tag_filter_placeholders(3), "?, ?, ?");
}

#[test]
fn update_message_names_the_work() {
    assert_eq!(metadata_updated_message("Rain"), "Updated metadata for Rain");
}
