use asmr_player::dlsite::parse_dlsite_html;

const PAGE: &str = r#"<html><body>
<h1 id="work_name">  Rainy Night Ear Cleaning  </h1>
<span id="work_maker"><span class="maker_name"> Circle Nimbus </span></span>
<table id="work_outline">
<tr><th> 声優 </th><td><a> Aoi </a> / <a>Rin</a></td><td><a>ignored</a></td></tr>
<tr><th>ジャンル</th><td><a>Healing</a><a> Binaural </a></td></tr>
<tr><th>Release</th><td><a>2024</a></td></tr>
</table>
<div class="main_genre"><a>Fallback</a></div>
</body></html>"#;

#[test]
fn page_fields_are_read_and_trimmed() {
    let m = parse_dlsite_html(PAGE).expect("has a title");
    assert_eq!(m.title, "Rainy Night Ear Cleaning");
    assert_eq!(m.circle, Some("Circle Nimbus".to_string()));
    assert_eq!(m.voice_actors, vec!["Aoi".to_string(), "Rin".to_string()]);
    assert_eq!(m.tags, vec!["Healing".to_string(), "Binaural".to_string()]);
}

#[test]
fn page_without_title_fails() {
    let r = parse_dlsite_html("<html><body><p>nothing</p></body></html>");
    assert_eq!(r.err(), Some("Could not find title".to_string()));
}

#[test]
fn page_tags_fall_back_to_main_genre() {
    let page = r#"<html><body><div id="work_name">T</div>
<div class="main_genre"><a> Whisper </a><a>ASMR</a></div></body></html>"#;
    let m = parse_dlsite_html(page).expect("has a title");
    assert_eq!(m.circle, None);
    assert!(m.voice_actors.is_empty());
    assert_eq!(m.tags, vec!["Whisper".to_string(), "ASMR".to_string()]);
}
